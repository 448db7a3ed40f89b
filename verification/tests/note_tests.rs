use diaudio::note::{note_to_midi, Accidental, NoteName};

const NOTES: [NoteName; 7] = [
    NoteName::C,
    NoteName::D,
    NoteName::E,
    NoteName::F,
    NoteName::G,
    NoteName::A,
    NoteName::B,
];
const ACCIDENTALS: [Accidental; 3] = [Accidental::Flat, Accidental::Natural, Accidental::Sharp];

#[test]
fn note_labels_and_values() {
    let labels: Vec<&str> = NOTES.iter().map(|n| n.label()).collect();
    assert_eq!(labels, vec!["C", "D", "E", "F", "G", "A", "B"]);
    let values: Vec<&str> = NOTES.iter().map(|n| n.value()).collect();
    assert_eq!(values, vec!["C", "D", "E", "F", "G", "A", "B"]);
}

#[test]
fn note_semitones_from_c() {
    let semitones: Vec<i32> = NOTES.iter().map(|n| n.semitones_from_c()).collect();
    assert_eq!(semitones, vec![0, 2, 4, 5, 7, 9, 11]);
}

#[test]
fn note_value_round_trip() {
    for note in NOTES {
        assert_eq!(NoteName::from_value(note.value()), Some(note));
    }
}

#[test]
fn note_from_unknown_value() {
    assert_eq!(NoteName::from_value("H"), None);
    assert_eq!(NoteName::from_value("c"), None);
    assert_eq!(NoteName::from_value(""), None);
    assert_eq!(NoteName::from_value("C "), None);
    assert_eq!(NoteName::from_value("CD"), None);
}

#[test]
fn accidental_labels_values_offsets() {
    assert_eq!(Accidental::Flat.label(), "♭ (Flat)");
    assert_eq!(Accidental::Natural.label(), "♮ (Natural)");
    assert_eq!(Accidental::Sharp.label(), "♯ (Sharp)");
    assert_eq!(Accidental::Flat.value(), "flat");
    assert_eq!(Accidental::Natural.value(), "natural");
    assert_eq!(Accidental::Sharp.value(), "sharp");
    assert_eq!(Accidental::Flat.semitone_offset(), -1);
    assert_eq!(Accidental::Natural.semitone_offset(), 0);
    assert_eq!(Accidental::Sharp.semitone_offset(), 1);
}

#[test]
fn accidental_value_round_trip() {
    for accidental in ACCIDENTALS {
        assert_eq!(Accidental::from_value(accidental.value()), Some(accidental));
    }
    assert_eq!(Accidental::from_value("Flat"), None);
    assert_eq!(Accidental::from_value("♭ (Flat)"), None);
    assert_eq!(Accidental::from_value(""), None);
}

#[test]
fn midi_of_reference_notes() {
    assert_eq!(note_to_midi(NoteName::A, Accidental::Natural, 4), 69);
    assert_eq!(note_to_midi(NoteName::C, Accidental::Natural, 4), 60);
    assert_eq!(note_to_midi(NoteName::C, Accidental::Natural, 0), 12);
    assert_eq!(note_to_midi(NoteName::B, Accidental::Natural, 8), 119);
}

#[test]
fn midi_range_of_menu_octaves() {
    assert_eq!(note_to_midi(NoteName::C, Accidental::Flat, 0), 11);
    assert_eq!(note_to_midi(NoteName::B, Accidental::Sharp, 8), 120);
    for octave in 0..=8u8 {
        for note in NOTES {
            for accidental in ACCIDENTALS {
                let midi = note_to_midi(note, accidental, octave) as i32;
                let expected =
                    12 * (octave as i32 + 1) + note.semitones_from_c() + accidental.semitone_offset();
                assert_eq!(midi, expected);
                assert!((11..=120).contains(&midi));
            }
        }
    }
}

#[test]
fn midi_wraps_to_a_byte_for_high_octaves() {
    assert_eq!(note_to_midi(NoteName::B, Accidental::Sharp, 255), 12);
    assert_eq!(note_to_midi(NoteName::C, Accidental::Natural, 20), 252);
    assert_eq!(note_to_midi(NoteName::G, Accidental::Natural, 20), 3);
}

#[test]
fn sharp_and_flat_shift_by_one_semitone() {
    for octave in [0u8, 4, 19, 200, 255] {
        for note in NOTES {
            let natural = note_to_midi(note, Accidental::Natural, octave);
            assert_eq!(note_to_midi(note, Accidental::Sharp, octave), natural.wrapping_add(1));
            assert_eq!(note_to_midi(note, Accidental::Flat, octave), natural.wrapping_sub(1));
        }
    }
}

#[test]
fn octave_step_adds_twelve() {
    for octave in [0u8, 3, 8, 21, 254] {
        for note in NOTES {
            for accidental in ACCIDENTALS {
                assert_eq!(
                    note_to_midi(note, accidental, octave + 1),
                    note_to_midi(note, accidental, octave).wrapping_add(12)
                );
            }
        }
    }
}

#[test]
fn enharmonic_spellings_meet() {
    for octave in [1u8, 4, 8, 100] {
        assert_eq!(
            note_to_midi(NoteName::E, Accidental::Sharp, octave),
            note_to_midi(NoteName::F, Accidental::Natural, octave)
        );
        assert_eq!(
            note_to_midi(NoteName::F, Accidental::Flat, octave),
            note_to_midi(NoteName::E, Accidental::Natural, octave)
        );
        assert_eq!(
            note_to_midi(NoteName::B, Accidental::Sharp, octave),
            note_to_midi(NoteName::C, Accidental::Natural, octave + 1)
        );
        assert_eq!(
            note_to_midi(NoteName::C, Accidental::Flat, octave),
            note_to_midi(NoteName::B, Accidental::Natural, octave - 1)
        );
    }
}
