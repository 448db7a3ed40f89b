use diaudio::note::{Accidental, NoteName};
use diaudio::player::{NotePlayer, SynthStatus, DEFAULT_OCTAVE, MAX_OCTAVE};

#[test]
fn player_starts_on_a4_natural() {
    let player = NotePlayer::new();
    assert_eq!(player.note(), NoteName::A);
    assert_eq!(player.accidental(), Accidental::Natural);
    assert_eq!(player.octave(), DEFAULT_OCTAVE);
    assert_eq!(player.octave(), 4);
    assert!(!player.is_playing());
    assert_eq!(player.status(), &SynthStatus::Ready);
    assert_eq!(player.current_midi(), 69);
}

#[test]
fn player_selects_note_and_accidental() {
    let mut player = NotePlayer::new();
    player.select_note("C");
    player.select_accidental("sharp");
    assert_eq!(player.note(), NoteName::C);
    assert_eq!(player.accidental(), Accidental::Sharp);
    assert_eq!(player.current_midi(), 61);
    player.select_note("X");
    player.select_accidental("double sharp");
    assert_eq!(player.note(), NoteName::C);
    assert_eq!(player.accidental(), Accidental::Sharp);
}

#[test]
fn player_octave_menu_bounds() {
    let mut player = NotePlayer::new();
    player.select_octave("8");
    assert_eq!(player.octave(), MAX_OCTAVE);
    player.select_octave("0");
    assert_eq!(player.octave(), 0);
    player.select_octave("9");
    assert_eq!(player.octave(), 0);
    player.select_octave("300");
    assert_eq!(player.octave(), 0);
    player.select_octave("seven");
    assert_eq!(player.octave(), 0);
    player.select_octave("");
    assert_eq!(player.octave(), 0);
    player.select_octave("7");
    assert_eq!(player.octave(), 7);
}

#[test]
fn player_parsed_octave_is_checked() {
    let mut player = NotePlayer::new();
    player.apply_parsed_octave(Some(9));
    assert_eq!(player.octave(), 4);
    player.apply_parsed_octave(None);
    assert_eq!(player.octave(), 4);
    player.apply_parsed_octave(Some(2));
    assert_eq!(player.octave(), 2);
}

#[test]
fn player_extremes_stay_in_midi_range() {
    let mut player = NotePlayer::new();
    player.select_note("C");
    player.select_accidental("flat");
    player.select_octave("0");
    assert_eq!(player.current_midi(), 11);
    player.select_note("B");
    player.select_accidental("sharp");
    player.select_octave("8");
    assert_eq!(player.current_midi(), 120);
}

#[test]
fn player_synth_started_and_stopped() {
    let mut player = NotePlayer::new();
    let midi = player.current_midi();
    player.synth_started(midi, Ok(()));
    assert!(player.is_playing());
    assert_eq!(player.status(), &SynthStatus::Playing { midi: 69 });
    player.synth_stopped();
    assert!(!player.is_playing());
    assert_eq!(player.status(), &SynthStatus::Ready);
}

#[test]
fn player_synth_failure_is_reported() {
    let mut player = NotePlayer::new();
    player.synth_started(69, Err("Audio not available outside WASM".to_string()));
    assert!(!player.is_playing());
    assert_eq!(
        player.status(),
        &SynthStatus::Failed { message: "Audio not available outside WASM".to_string() }
    );
    player.synth_stopped();
    assert_eq!(player.status(), &SynthStatus::Ready);
}

#[test]
fn player_octave_text_forms() {
    let mut player = NotePlayer::new();
    player.select_octave("5");
    assert_eq!(player.octave(), 5);
    player.select_octave("+3");
    assert_eq!(player.octave(), 3);
    player.select_octave("06");
    assert_eq!(player.octave(), 6);
    player.select_octave("-1");
    assert_eq!(player.octave(), 6);
    player.select_octave("-0");
    assert_eq!(player.octave(), 6);
    player.select_octave(" 2");
    assert_eq!(player.octave(), 6);
    player.select_octave("+");
    assert_eq!(player.octave(), 6);
    player.select_octave("256");
    assert_eq!(player.octave(), 6);
}
