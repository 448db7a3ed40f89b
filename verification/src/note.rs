//! Note names, accidentals and their MIDI numbers.
use vstd::prelude::*;

use crate::text::same_text;

verus! {

/// The natural note names of the C major scale.
#[derive(Clone, Copy, PartialEq, Eq, Structural, Debug)]
pub enum NoteName {
    C,
    D,
    E,
    F,
    G,
    A,
    B,
}

/// A sharp, flat or natural sign.
#[derive(Clone, Copy, PartialEq, Eq, Structural, Debug)]
pub enum Accidental {
    Flat,
    Natural,
    Sharp,
}

impl NoteName {
    /// The text shown for the note.
    pub open spec fn spec_label(self) -> Seq<char> {
        match self {
            NoteName::C => "C"@,
            NoteName::D => "D"@,
            NoteName::E => "E"@,
            NoteName::F => "F"@,
            NoteName::G => "G"@,
            NoteName::A => "A"@,
            NoteName::B => "B"@,
        }
    }

    /// The form value that stands for the note.
    pub open spec fn spec_value(self) -> Seq<char> {
        match self {
            NoteName::C => "C"@,
            NoteName::D => "D"@,
            NoteName::E => "E"@,
            NoteName::F => "F"@,
            NoteName::G => "G"@,
            NoteName::A => "A"@,
            NoteName::B => "B"@,
        }
    }

    /// The note whose form value is `value`, if any.
    pub open spec fn spec_from_value(value: Seq<char>) -> Option<NoteName> {
        if value == "C"@ {
            Some(NoteName::C)
        } else if value == "D"@ {
            Some(NoteName::D)
        } else if value == "E"@ {
            Some(NoteName::E)
        } else if value == "F"@ {
            Some(NoteName::F)
        } else if value == "G"@ {
            Some(NoteName::G)
        } else if value == "A"@ {
            Some(NoteName::A)
        } else if value == "B"@ {
            Some(NoteName::B)
        } else {
            None
        }
    }

    /// Semitones from C up to the note, within one octave.
    pub open spec fn spec_semitones_from_c(self) -> int {
        match self {
            NoteName::C => 0,
            NoteName::D => 2,
            NoteName::E => 4,
            NoteName::F => 5,
            NoteName::G => 7,
            NoteName::A => 9,
            NoteName::B => 11,
        }
    }

    pub fn label(self) -> (text: &'static str)
        ensures
            text@ == self.spec_label(),
    {
        match self {
            NoteName::C => "C",
            NoteName::D => "D",
            NoteName::E => "E",
            NoteName::F => "F",
            NoteName::G => "G",
            NoteName::A => "A",
            NoteName::B => "B",
        }
    }

    pub fn value(self) -> (text: &'static str)
        ensures
            text@ == self.spec_value(),
    {
        match self {
            NoteName::C => "C",
            NoteName::D => "D",
            NoteName::E => "E",
            NoteName::F => "F",
            NoteName::G => "G",
            NoteName::A => "A",
            NoteName::B => "B",
        }
    }

    pub fn from_value(value: &str) -> (note: Option<NoteName>)
        ensures
            note == NoteName::spec_from_value(value@),
    {
        if same_text(value, "C") {
            Some(NoteName::C)
        } else if same_text(value, "D") {
            Some(NoteName::D)
        } else if same_text(value, "E") {
            Some(NoteName::E)
        } else if same_text(value, "F") {
            Some(NoteName::F)
        } else if same_text(value, "G") {
            Some(NoteName::G)
        } else if same_text(value, "A") {
            Some(NoteName::A)
        } else if same_text(value, "B") {
            Some(NoteName::B)
        } else {
            None
        }
    }

    pub fn semitones_from_c(self) -> (semitones: i32)
        ensures
            semitones == self.spec_semitones_from_c(),
    {
        match self {
            NoteName::C => 0,
            NoteName::D => 2,
            NoteName::E => 4,
            NoteName::F => 5,
            NoteName::G => 7,
            NoteName::A => 9,
            NoteName::B => 11,
        }
    }
}

impl Accidental {
    /// The text shown for the accidental.
    pub open spec fn spec_label(self) -> Seq<char> {
        match self {
            Accidental::Flat => "♭ (Flat)"@,
            Accidental::Natural => "♮ (Natural)"@,
            Accidental::Sharp => "♯ (Sharp)"@,
        }
    }

    /// The form value that stands for the accidental.
    pub open spec fn spec_value(self) -> Seq<char> {
        match self {
            Accidental::Flat => "flat"@,
            Accidental::Natural => "natural"@,
            Accidental::Sharp => "sharp"@,
        }
    }

    /// The accidental whose form value is `value`, if any.
    pub open spec fn spec_from_value(value: Seq<char>) -> Option<Accidental> {
        if value == "flat"@ {
            Some(Accidental::Flat)
        } else if value == "natural"@ {
            Some(Accidental::Natural)
        } else if value == "sharp"@ {
            Some(Accidental::Sharp)
        } else {
            None
        }
    }

    /// How far the accidental moves a note, in semitones.
    pub open spec fn spec_semitone_offset(self) -> int {
        match self {
            Accidental::Flat => -1,
            Accidental::Natural => 0,
            Accidental::Sharp => 1,
        }
    }

    pub fn label(self) -> (text: &'static str)
        ensures
            text@ == self.spec_label(),
    {
        match self {
            Accidental::Flat => "♭ (Flat)",
            Accidental::Natural => "♮ (Natural)",
            Accidental::Sharp => "♯ (Sharp)",
        }
    }

    pub fn value(self) -> (text: &'static str)
        ensures
            text@ == self.spec_value(),
    {
        match self {
            Accidental::Flat => "flat",
            Accidental::Natural => "natural",
            Accidental::Sharp => "sharp",
        }
    }

    pub fn from_value(value: &str) -> (accidental: Option<Accidental>)
        ensures
            accidental == Accidental::spec_from_value(value@),
    {
        if same_text(value, "flat") {
            Some(Accidental::Flat)
        } else if same_text(value, "natural") {
            Some(Accidental::Natural)
        } else if same_text(value, "sharp") {
            Some(Accidental::Sharp)
        } else {
            None
        }
    }

    pub fn semitone_offset(self) -> (offset: i32)
        ensures
            offset == self.spec_semitone_offset(),
    {
        match self {
            Accidental::Flat => -1,
            Accidental::Natural => 0,
            Accidental::Sharp => 1,
        }
    }
}

/// The MIDI number of a note in an octave, where C4 is 60: twelve semitones per
/// octave above C-1, plus the note's and the accidental's semitones, kept to a byte.
pub open spec fn spec_note_to_midi(note: NoteName, accidental: Accidental, octave: u8) -> int {
    (12 * (octave + 1) + note.spec_semitones_from_c() + accidental.spec_semitone_offset()) % 256
}

/// The MIDI number of `note` with `accidental` in `octave`. A flat C moves down into the
/// octave below and a sharp B up into the one above; the sum is truncated to a byte.
pub fn note_to_midi(note: NoteName, accidental: Accidental, octave: u8) -> (midi: u8)
    ensures
        midi as int == spec_note_to_midi(note, accidental, octave),
{
    let semitones_from_c: i32 = note.semitones_from_c() + accidental.semitone_offset();
    let octave_offset: i32 = if semitones_from_c < 0 {
        (octave as i32) - 1
    } else if semitones_from_c >= 12 {
        (octave as i32) + 1
    } else {
        octave as i32
    };
    let semitone_offset: i32 = semitones_from_c.checked_rem_euclid(12).unwrap();
    let total: i32 = (octave_offset + 1) * 12 + semitone_offset;
    assert(total == 12 * (octave + 1) + semitones_from_c);
    assert(0 <= total);
    assert((total as u8) as int == total % 256) by (bit_vector)
        requires
            0 <= total,
    ;
    total as u8
}

} // verus!

verus! {

/// A form value names a note exactly when it is that note's value: reading back
/// the value of a note gives the note, and no other text reads as it.
pub proof fn lemma_note_value_round_trip(note: NoteName, value: Seq<char>)
    ensures
        NoteName::spec_from_value(value) == Some(note) <==> value == note.spec_value(),
{
    reveal_strlit("C");
    assert("C"@ =~= seq!['C']);
    reveal_strlit("D");
    assert("D"@ =~= seq!['D']);
    reveal_strlit("E");
    assert("E"@ =~= seq!['E']);
    reveal_strlit("F");
    assert("F"@ =~= seq!['F']);
    reveal_strlit("G");
    assert("G"@ =~= seq!['G']);
    reveal_strlit("A");
    assert("A"@ =~= seq!['A']);
    reveal_strlit("B");
    assert("B"@ =~= seq!['B']);
    if value == note.spec_value() {
        assert(value.len() == 1);
        assert(value[0] == note.spec_value()[0]);
    }
}

/// A form value names an accidental exactly when it is that accidental's value.
pub proof fn lemma_accidental_value_round_trip(accidental: Accidental, value: Seq<char>)
    ensures
        Accidental::spec_from_value(value) == Some(accidental) <==> value == accidental.spec_value(),
{
    reveal_strlit("flat");
    assert("flat"@ =~= seq!['f', 'l', 'a', 't']);
    reveal_strlit("natural");
    assert("natural"@ =~= seq!['n', 'a', 't', 'u', 'r', 'a', 'l']);
    reveal_strlit("sharp");
    assert("sharp"@ =~= seq!['s', 'h', 'a', 'r', 'p']);
}

/// In octaves 0 to 19 no truncation happens: the MIDI number is twelve per octave above
/// C-1 plus the semitones of note and accidental, and in octaves 0 to 8 it lies in 11..=120.
pub proof fn lemma_midi_exact_in_range(note: NoteName, accidental: Accidental, octave: u8)
    requires
        octave <= 19,
    ensures
        spec_note_to_midi(note, accidental, octave) == 12 * (octave + 1)
            + note.spec_semitones_from_c() + accidental.spec_semitone_offset(),
        octave <= 8 ==> 11 <= spec_note_to_midi(note, accidental, octave) <= 120,
{
}

/// A sharp raises a note by one semitone and a flat lowers it by one, modulo a byte.
pub proof fn lemma_accidentals_shift_by_semitone(note: NoteName, octave: u8)
    ensures
        spec_note_to_midi(note, Accidental::Sharp, octave) == (spec_note_to_midi(
            note,
            Accidental::Natural,
            octave,
        ) + 1) % 256,
        spec_note_to_midi(note, Accidental::Flat, octave) == (spec_note_to_midi(
            note,
            Accidental::Natural,
            octave,
        ) + 255) % 256,
{
    let n = 12 * (octave + 1) + note.spec_semitones_from_c();
    assert(n >= 0);
    vstd::arithmetic::div_mod::lemma_add_mod_noop(n, 1, 256);
    vstd::arithmetic::div_mod::lemma_add_mod_noop(n, 255, 256);
    vstd::arithmetic::div_mod::lemma_mod_add_multiples_vanish(n - 1, 256);
}

/// Moving one octave up adds twelve semitones, modulo a byte.
pub proof fn lemma_octave_adds_twelve(note: NoteName, accidental: Accidental, octave: u8)
    requires
        octave < 255,
    ensures
        spec_note_to_midi(note, accidental, (octave + 1) as u8) == (spec_note_to_midi(
            note,
            accidental,
            octave,
        ) + 12) % 256,
{
    let n = 12 * (octave + 1) + note.spec_semitones_from_c() + accidental.spec_semitone_offset();
    assert(n >= 0);
    vstd::arithmetic::div_mod::lemma_add_mod_noop(n, 12, 256);
}

/// Enharmonic spellings meet: E sharp is F, F flat is E, B sharp is the next octave's C
/// and C flat is the previous octave's B.
pub proof fn lemma_enharmonic_spellings(octave: u8)
    ensures
        spec_note_to_midi(NoteName::E, Accidental::Sharp, octave) == spec_note_to_midi(
            NoteName::F,
            Accidental::Natural,
            octave,
        ),
        spec_note_to_midi(NoteName::F, Accidental::Flat, octave) == spec_note_to_midi(
            NoteName::E,
            Accidental::Natural,
            octave,
        ),
        octave < 255 ==> spec_note_to_midi(NoteName::B, Accidental::Sharp, octave)
            == spec_note_to_midi(NoteName::C, Accidental::Natural, (octave + 1) as u8),
        octave > 0 ==> spec_note_to_midi(NoteName::C, Accidental::Flat, octave)
            == spec_note_to_midi(NoteName::B, Accidental::Natural, (octave - 1) as u8),
{
}

} // verus!

verus! {

/// The natural notes climb the C major scale from C at 0: whole, whole, half, whole,
/// whole and whole steps, with a half step left up to the next C.
pub proof fn lemma_naturals_form_major_scale()
    ensures
        NoteName::C.spec_semitones_from_c() == 0,
        NoteName::D.spec_semitones_from_c() - NoteName::C.spec_semitones_from_c() == 2,
        NoteName::E.spec_semitones_from_c() - NoteName::D.spec_semitones_from_c() == 2,
        NoteName::F.spec_semitones_from_c() - NoteName::E.spec_semitones_from_c() == 1,
        NoteName::G.spec_semitones_from_c() - NoteName::F.spec_semitones_from_c() == 2,
        NoteName::A.spec_semitones_from_c() - NoteName::G.spec_semitones_from_c() == 2,
        NoteName::B.spec_semitones_from_c() - NoteName::A.spec_semitones_from_c() == 2,
        12 - NoteName::B.spec_semitones_from_c() == 1,
{
}

/// A note is shown by its own letter, which is also its form value, and no two notes
/// share a label; no two accidentals share a label or a value.
pub proof fn lemma_labels_tell_entries_apart(a: NoteName, b: NoteName, x: Accidental, y: Accidental)
    ensures
        a.spec_label() == a.spec_value(),
        a.spec_label() == b.spec_label() ==> a == b,
        x.spec_label() == y.spec_label() ==> x == y,
        x.spec_value() == y.spec_value() ==> x == y,
{
    lemma_note_value_round_trip(a, b.spec_value());
    lemma_note_value_round_trip(b, b.spec_value());
    lemma_accidental_value_round_trip(x, y.spec_value());
    lemma_accidental_value_round_trip(y, y.spec_value());
    reveal_strlit("♭ (Flat)");
    reveal_strlit("♮ (Natural)");
    reveal_strlit("♯ (Sharp)");
    if x.spec_label() == y.spec_label() {
        assert(x.spec_label()[0] == y.spec_label()[0]);
    }
}

} // verus!
