//! The note player of the "Any Note" page: the chosen note, accidental and octave, and
//! what the synthesizer last reported, as a state machine over the page's events.
use vstd::prelude::*;

use crate::note::{
    lemma_accidental_value_round_trip, lemma_midi_exact_in_range, lemma_note_value_round_trip,
    note_to_midi, spec_note_to_midi, Accidental, NoteName,
};
use crate::text::{parse_u8, spec_parse_u8};

verus! {

/// The highest octave the octave menu offers; the lowest is 0.
pub const MAX_OCTAVE: u8 = 8;

/// The octave selected when the page opens.
pub const DEFAULT_OCTAVE: u8 = 4;

/// What the synthesizer last reported.
#[derive(PartialEq, Eq, Debug)]
pub enum SynthStatus {
    /// Nothing is sounding.
    Ready,
    /// The note with this MIDI number is sounding.
    Playing { midi: u8 },
    /// Starting the synthesizer failed with this message.
    Failed { message: String },
}

/// The player's state, as its contracts speak of it.
pub struct PlayerModel {
    pub note: NoteName,
    pub accidental: Accidental,
    pub octave: u8,
    pub is_playing: bool,
    pub status: SynthStatus,
}

impl PlayerModel {
    /// A4, natural, with nothing sounding.
    pub open spec fn initial() -> PlayerModel {
        PlayerModel {
            note: NoteName::A,
            accidental: Accidental::Natural,
            octave: DEFAULT_OCTAVE,
            is_playing: false,
            status: SynthStatus::Ready,
        }
    }

    /// The octave is one the menu offers.
    pub open spec fn is_consistent(self) -> bool {
        self.octave <= MAX_OCTAVE
    }

    /// The MIDI number of the selected note.
    pub open spec fn midi(self) -> int {
        spec_note_to_midi(self.note, self.accidental, self.octave)
    }

    /// A note menu value arrived; one that names no note is ignored.
    pub open spec fn after_note_value(self, value: Seq<char>) -> PlayerModel {
        match NoteName::spec_from_value(value) {
            Some(note) => PlayerModel { note, ..self },
            None => self,
        }
    }

    /// An accidental menu value arrived; one that names no accidental is ignored.
    pub open spec fn after_accidental_value(self, value: Seq<char>) -> PlayerModel {
        match Accidental::spec_from_value(value) {
            Some(accidental) => PlayerModel { accidental, ..self },
            None => self,
        }
    }

    /// An octave was read from the menu; a text that is no number, or a number past
    /// the highest octave, is ignored.
    pub open spec fn after_octave(self, parsed: Option<u8>) -> PlayerModel {
        match parsed {
            Some(octave) => if octave <= MAX_OCTAVE {
                PlayerModel { octave, ..self }
            } else {
                self
            },
            None => self,
        }
    }

    /// The synthesizer answered a request to play the note `midi`.
    pub open spec fn after_synth_started(self, midi: u8, outcome: Result<(), String>) -> PlayerModel {
        match outcome {
            Ok(()) => PlayerModel {
                is_playing: true,
                status: SynthStatus::Playing { midi },
                ..self
            },
            Err(message) => PlayerModel { status: SynthStatus::Failed { message }, ..self },
        }
    }

    /// The synthesizer was asked to stop, whatever it answered.
    pub open spec fn after_synth_stopped(self) -> PlayerModel {
        PlayerModel { is_playing: false, status: SynthStatus::Ready, ..self }
    }
}

/// The note player's state machine.
pub struct NotePlayer {
    model: PlayerModel,
}

impl View for NotePlayer {
    type V = PlayerModel;

    closed spec fn view(&self) -> PlayerModel {
        self.model
    }
}

impl NotePlayer {
    #[verifier::type_invariant]
    spec fn consistent(self) -> bool {
        self.model.is_consistent()
    }

    pub fn new() -> (player: NotePlayer)
        ensures
            player@ == PlayerModel::initial(),
            player@.is_consistent(),
    {
        NotePlayer {
            model: PlayerModel {
                note: NoteName::A,
                accidental: Accidental::Natural,
                octave: DEFAULT_OCTAVE,
                is_playing: false,
                status: SynthStatus::Ready,
            },
        }
    }

    pub fn note(&self) -> (note: NoteName)
        ensures
            note == self@.note,
    {
        self.model.note
    }

    pub fn accidental(&self) -> (accidental: Accidental)
        ensures
            accidental == self@.accidental,
    {
        self.model.accidental
    }

    pub fn octave(&self) -> (octave: u8)
        ensures
            octave == self@.octave,
            octave <= MAX_OCTAVE,
    {
        proof {
            use_type_invariant(self);
        }
        self.model.octave
    }

    pub fn is_playing(&self) -> (playing: bool)
        ensures
            playing == self@.is_playing,
    {
        self.model.is_playing
    }

    pub fn status(&self) -> (status: &SynthStatus)
        ensures
            *status == self@.status,
    {
        &self.model.status
    }

    /// The MIDI number of the selected note: exact, with no truncation, and in 11..=120.
    pub fn current_midi(&self) -> (midi: u8)
        ensures
            midi as int == self@.midi(),
            midi as int == 12 * (self@.octave + 1) + self@.note.spec_semitones_from_c()
                + self@.accidental.spec_semitone_offset(),
            11 <= midi <= 120,
    {
        proof {
            use_type_invariant(self);
            lemma_midi_exact_in_range(self.model.note, self.model.accidental, self.model.octave);
        }
        note_to_midi(self.model.note, self.model.accidental, self.model.octave)
    }

    /// Handles a value of the note menu.
    pub fn select_note(&mut self, value: &str)
        ensures
            final(self)@ == old(self)@.after_note_value(value@),
            final(self)@.is_consistent(),
            forall|note: NoteName| value@ == note.spec_value() ==> final(self)@.note == note,
    {
        proof {
            use_type_invariant(&*self);
            assert forall|note: NoteName| value@ == note.spec_value() implies NoteName::spec_from_value(value@) == Some(note) by {
                lemma_note_value_round_trip(note, value@);
            }
        }
        if let Some(note) = NoteName::from_value(value) {
            self.model.note = note;
        }
    }

    /// Handles a value of the accidental menu.
    pub fn select_accidental(&mut self, value: &str)
        ensures
            final(self)@ == old(self)@.after_accidental_value(value@),
            final(self)@.is_consistent(),
            forall|accidental: Accidental| value@ == accidental.spec_value() ==> final(self)@.accidental == accidental,
    {
        proof {
            use_type_invariant(&*self);
            assert forall|accidental: Accidental| value@ == accidental.spec_value() implies Accidental::spec_from_value(value@) == Some(accidental) by {
                lemma_accidental_value_round_trip(accidental, value@);
            }
        }
        if let Some(accidental) = Accidental::from_value(value) {
            self.model.accidental = accidental;
        }
    }

    /// Takes an octave that was read from the menu, if it is one the menu offers.
    pub fn apply_parsed_octave(&mut self, parsed: Option<u8>)
        ensures
            final(self)@ == old(self)@.after_octave(parsed),
            final(self)@.is_consistent(),
            parsed matches Some(octave) ==> (octave <= MAX_OCTAVE ==> final(self)@.octave == octave),
    {
        proof {
            use_type_invariant(&*self);
        }
        if let Some(octave) = parsed {
            if octave <= MAX_OCTAVE {
                self.model.octave = octave;
            }
        }
    }

    /// Handles a value of the octave menu.
    pub fn select_octave(&mut self, value: &str)
        ensures
            final(self)@ == old(self)@.after_octave(spec_parse_u8(value@)),
            final(self)@.is_consistent(),
    {
        let parsed = parse_u8(value);
        self.apply_parsed_octave(parsed);
    }

    /// Records the synthesizer's answer to a request to play the note `midi`.
    pub fn synth_started(&mut self, midi: u8, outcome: Result<(), String>)
        ensures
            final(self)@ == old(self)@.after_synth_started(midi, outcome),
            final(self)@.is_consistent(),
    {
        proof {
            use_type_invariant(&*self);
        }
        match outcome {
            Ok(()) => {
                self.model.is_playing = true;
                self.model.status = SynthStatus::Playing { midi };
            },
            Err(message) => {
                self.model.status = SynthStatus::Failed { message };
            },
        }
    }

    /// Records that the synthesizer was asked to stop.
    pub fn synth_stopped(&mut self)
        ensures
            final(self)@ == old(self)@.after_synth_stopped(),
            final(self)@.is_consistent(),
    {
        proof {
            use_type_invariant(&*self);
        }
        self.model.is_playing = false;
        self.model.status = SynthStatus::Ready;
    }
}

/// The page starts on a menu octave, and every event keeps the octave among those the
/// menu offers, so the note sounded is never truncated and lies in 11..=120.
pub proof fn lemma_player_events_keep_octave(
    model: PlayerModel,
    value: Seq<char>,
    parsed: Option<u8>,
    midi: u8,
    outcome: Result<(), String>,
)
    requires
        model.is_consistent(),
    ensures
        PlayerModel::initial().is_consistent(),
        model.after_note_value(value).is_consistent(),
        model.after_accidental_value(value).is_consistent(),
        model.after_octave(parsed).is_consistent(),
        model.after_synth_started(midi, outcome).is_consistent(),
        model.after_synth_stopped().is_consistent(),
        11 <= model.midi() <= 120,
{
    lemma_midi_exact_in_range(model.note, model.accidental, model.octave);
}

/// Picking a note's menu value selects that note, for every note, and leaves the
/// accidental, octave and synthesizer state as they were; a value that names no note
/// changes nothing.
pub proof fn lemma_note_menu_selects_note(model: PlayerModel, note: NoteName, value: Seq<char>)
    ensures
        ({
            let next = model.after_note_value(note.spec_value());
            &&& next.note == note
            &&& next.accidental == model.accidental
            &&& next.octave == model.octave
            &&& next.is_playing == model.is_playing
            &&& next.status == model.status
        }),
        NoteName::spec_from_value(value) is None ==> model.after_note_value(value) == model,
{
    lemma_note_value_round_trip(note, note.spec_value());
}

/// Picking an accidental's menu value selects that accidental, for every accidental, and
/// leaves the note, octave and synthesizer state as they were; a value that names no
/// accidental changes nothing.
pub proof fn lemma_accidental_menu_selects_accidental(
    model: PlayerModel,
    accidental: Accidental,
    value: Seq<char>,
)
    ensures
        ({
            let next = model.after_accidental_value(accidental.spec_value());
            &&& next.accidental == accidental
            &&& next.note == model.note
            &&& next.octave == model.octave
            &&& next.is_playing == model.is_playing
            &&& next.status == model.status
        }),
        Accidental::spec_from_value(value) is None ==> model.after_accidental_value(value)
            == model,
{
    lemma_accidental_value_round_trip(accidental, accidental.spec_value());
}

/// A parsed octave the menu offers becomes the octave, whatever it was before, and the
/// last of two choices wins; one past the highest octave, or no number, changes nothing.
pub proof fn lemma_octave_choice_sets_octave(model: PlayerModel, first: u8, second: u8)
    ensures
        first <= MAX_OCTAVE ==> ({
            let next = model.after_octave(Some(first));
            &&& next.octave == first
            &&& next.note == model.note
            &&& next.accidental == model.accidental
            &&& next.is_playing == model.is_playing
            &&& next.status == model.status
        }),
        first > MAX_OCTAVE ==> model.after_octave(Some(first)) == model,
        model.after_octave(None) == model,
        second <= MAX_OCTAVE ==> model.after_octave(Some(first)).after_octave(Some(second)).octave
            == second,
{
}

/// After choosing note `note`, accidental `accidental` and a menu octave `octave`, in any
/// order of events ending with these, the note to sound has the MIDI number twelve per
/// octave above C-1 plus the note's and the accidental's semitones.
pub proof fn lemma_selection_sounds_chosen_note(
    model: PlayerModel,
    note: NoteName,
    accidental: Accidental,
    octave: u8,
)
    requires
        octave <= MAX_OCTAVE,
    ensures
        ({
            let next = model.after_note_value(note.spec_value()).after_accidental_value(
                accidental.spec_value(),
            ).after_octave(Some(octave));
            next.midi() == 12 * (octave + 1) + note.spec_semitones_from_c()
                + accidental.spec_semitone_offset()
        }),
{
    lemma_note_value_round_trip(note, note.spec_value());
    lemma_accidental_value_round_trip(accidental, accidental.spec_value());
    lemma_midi_exact_in_range(note, accidental, octave);
}

/// A started synthesizer marks the player as playing the requested note; a failure keeps
/// the playing flag and reports the failure's message; stopping always returns to ready
/// and not playing. None of these touches the selected note, accidental or octave.
pub proof fn lemma_synth_answers(model: PlayerModel, midi: u8, message: String)
    ensures
        ({
            let started = model.after_synth_started(midi, Ok(()));
            &&& started.is_playing
            &&& started.status == SynthStatus::Playing { midi }
            &&& started.note == model.note && started.accidental == model.accidental
                && started.octave == model.octave
        }),
        ({
            let failed = model.after_synth_started(midi, Err(message));
            &&& failed.is_playing == model.is_playing
            &&& failed.status == SynthStatus::Failed { message }
            &&& failed.note == model.note && failed.accidental == model.accidental
                && failed.octave == model.octave
        }),
        ({
            let stopped = model.after_synth_stopped();
            &&& !stopped.is_playing
            &&& stopped.status == SynthStatus::Ready
            &&& stopped.note == model.note && stopped.accidental == model.accidental
                && stopped.octave == model.octave
        }),
{
}

} // verus!

verus! {

/// The page opens on A natural in octave 4, MIDI 69, with nothing sounding.
pub proof fn lemma_player_opens_on_a4()
    ensures
        ({
            let start = PlayerModel::initial();
            &&& start.note == NoteName::A
            &&& start.accidental == Accidental::Natural
            &&& start.octave == 4
            &&& !start.is_playing
            &&& start.status == SynthStatus::Ready
            &&& start.midi() == 69
        }),
{
}

} // verus!
