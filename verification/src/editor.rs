//! The waveform editor of the FFT page: preset signals, the drawing gesture and the
//! sample size, as a state machine whose actions the page carries out on its points.
use vstd::prelude::*;

use crate::text::{parse_usize, spec_parse_usize, same_text};

verus! {

/// The number of samples the drawn waveform is normalized to before any choice.
pub const DEFAULT_SAMPLE_SIZE: usize = 256;

/// The synthetic signals the editor can load.
#[derive(Clone, Copy, PartialEq, Eq, Structural, Debug)]
pub enum TestSignalKind {
    SinX,
    SinXPlusSin2X,
    SinXPlusSin16X,
}

/// The entries of the preset menu.
#[derive(Clone, Copy, PartialEq, Eq, Structural, Debug)]
pub enum PresetSelection {
    DrawMode,
    Clear,
    SinX,
    SinXPlusSin2X,
    SinXPlusSin16X,
}

impl TestSignalKind {
    /// The formula shown for the signal.
    pub open spec fn spec_label(self) -> Seq<char> {
        match self {
            TestSignalKind::SinX => "sin(x)"@,
            TestSignalKind::SinXPlusSin2X => "sin(x) + sin(2x)"@,
            TestSignalKind::SinXPlusSin16X => "sin(x) + sin(16x)"@,
        }
    }

    pub fn label(self) -> (text: &'static str)
        ensures
            text@ == self.spec_label(),
    {
        match self {
            TestSignalKind::SinX => "sin(x)",
            TestSignalKind::SinXPlusSin2X => "sin(x) + sin(2x)",
            TestSignalKind::SinXPlusSin16X => "sin(x) + sin(16x)",
        }
    }
}

impl PresetSelection {
    /// The form value that stands for the entry.
    pub open spec fn spec_value(self) -> Seq<char> {
        match self {
            PresetSelection::DrawMode => "draw"@,
            PresetSelection::Clear => "clear"@,
            PresetSelection::SinX => "sin_x"@,
            PresetSelection::SinXPlusSin2X => "sin_x_plus_sin_2x"@,
            PresetSelection::SinXPlusSin16X => "sin_x_plus_sin_16x"@,
        }
    }

    /// The entry whose form value is `value`, if any.
    pub open spec fn spec_from_value(value: Seq<char>) -> Option<PresetSelection> {
        if value == "draw"@ {
            Some(PresetSelection::DrawMode)
        } else if value == "clear"@ {
            Some(PresetSelection::Clear)
        } else if value == "sin_x"@ {
            Some(PresetSelection::SinX)
        } else if value == "sin_x_plus_sin_2x"@ {
            Some(PresetSelection::SinXPlusSin2X)
        } else if value == "sin_x_plus_sin_16x"@ {
            Some(PresetSelection::SinXPlusSin16X)
        } else {
            None
        }
    }

    /// The synthetic signal an entry loads; none for drawing and clearing.
    pub open spec fn spec_signal_kind(self) -> Option<TestSignalKind> {
        match self {
            PresetSelection::SinX => Some(TestSignalKind::SinX),
            PresetSelection::SinXPlusSin2X => Some(TestSignalKind::SinXPlusSin2X),
            PresetSelection::SinXPlusSin16X => Some(TestSignalKind::SinXPlusSin16X),
            PresetSelection::DrawMode | PresetSelection::Clear => None,
        }
    }

    pub fn value(self) -> (text: &'static str)
        ensures
            text@ == self.spec_value(),
    {
        match self {
            PresetSelection::DrawMode => "draw",
            PresetSelection::Clear => "clear",
            PresetSelection::SinX => "sin_x",
            PresetSelection::SinXPlusSin2X => "sin_x_plus_sin_2x",
            PresetSelection::SinXPlusSin16X => "sin_x_plus_sin_16x",
        }
    }

    pub fn from_value(value: &str) -> (selection: Option<PresetSelection>)
        ensures
            selection == PresetSelection::spec_from_value(value@),
    {
        if same_text(value, "draw") {
            Some(PresetSelection::DrawMode)
        } else if same_text(value, "clear") {
            Some(PresetSelection::Clear)
        } else if same_text(value, "sin_x") {
            Some(PresetSelection::SinX)
        } else if same_text(value, "sin_x_plus_sin_2x") {
            Some(PresetSelection::SinXPlusSin2X)
        } else if same_text(value, "sin_x_plus_sin_16x") {
            Some(PresetSelection::SinXPlusSin16X)
        } else {
            None
        }
    }

    pub fn signal_kind(self) -> (kind: Option<TestSignalKind>)
        ensures
            kind == self.spec_signal_kind(),
    {
        match self {
            PresetSelection::SinX => Some(TestSignalKind::SinX),
            PresetSelection::SinXPlusSin2X => Some(TestSignalKind::SinXPlusSin2X),
            PresetSelection::SinXPlusSin16X => Some(TestSignalKind::SinXPlusSin16X),
            PresetSelection::DrawMode | PresetSelection::Clear => None,
        }
    }
}

/// What the page does to its waveform points after an event; `P` is a pointer position.
#[derive(PartialEq, Debug)]
pub enum EditorAction<P> {
    /// Leave the points as they are.
    Nothing,
    /// Remove every point.
    ClearWaveform,
    /// Replace the points by those of a synthetic signal.
    LoadTestSignal(TestSignalKind),
    /// Replace the points by the inverse transform of the filtered spectrum.
    Reconstruct,
    /// Set the point at this position's column.
    UpsertPoint(P),
    /// Draw a straight segment from the first position to the second.
    DrawSegment(P, P),
}

/// The editor's state, as its contracts speak of it.
pub struct EditorModel<P> {
    pub is_drawing: bool,
    pub active_test_signal: Option<TestSignalKind>,
    pub preset_selection: PresetSelection,
    pub last_draw_position: Option<P>,
    pub sample_size: usize,
}

impl<P> EditorModel<P> {
    /// The state the page opens with.
    pub open spec fn initial() -> EditorModel<P> {
        EditorModel {
            is_drawing: false,
            active_test_signal: None,
            preset_selection: PresetSelection::DrawMode,
            last_draw_position: None,
            sample_size: DEFAULT_SAMPLE_SIZE,
        }
    }

    /// The menu never rests on "clear", the active signal is the one of the menu entry,
    /// and a previous pointer position is kept exactly while a stroke is being drawn.
    pub open spec fn is_consistent(self) -> bool {
        &&& self.preset_selection != PresetSelection::Clear
        &&& self.active_test_signal == self.preset_selection.spec_signal_kind()
        &&& (self.is_drawing <==> self.last_draw_position is Some)
    }

    /// A menu entry was picked: any stroke ends, and the entry clears, loads or only
    /// returns to drawing.
    pub open spec fn after_preset(self, selection: PresetSelection) -> (EditorModel<P>, EditorAction<P>) {
        let idle = EditorModel { is_drawing: false, last_draw_position: None, ..self };
        match selection {
            PresetSelection::DrawMode => (
                EditorModel {
                    active_test_signal: None,
                    preset_selection: PresetSelection::DrawMode,
                    ..idle
                },
                EditorAction::Nothing,
            ),
            PresetSelection::Clear => (
                EditorModel {
                    active_test_signal: None,
                    preset_selection: PresetSelection::DrawMode,
                    ..idle
                },
                EditorAction::ClearWaveform,
            ),
            _ => (
                EditorModel {
                    active_test_signal: selection.spec_signal_kind(),
                    preset_selection: selection,
                    ..idle
                },
                EditorAction::LoadTestSignal(selection.spec_signal_kind().unwrap()),
            ),
        }
    }

    /// A menu value arrived; one that names no entry is ignored.
    pub open spec fn after_preset_value(self, value: Seq<char>) -> (EditorModel<P>, EditorAction<P>) {
        match PresetSelection::spec_from_value(value) {
            Some(selection) => self.after_preset(selection),
            None => (self, EditorAction::Nothing),
        }
    }

    /// The reconstruction button was pressed.
    pub open spec fn after_reconstruct(self) -> (EditorModel<P>, EditorAction<P>) {
        (
            EditorModel {
                is_drawing: false,
                active_test_signal: None,
                preset_selection: PresetSelection::DrawMode,
                last_draw_position: None,
                ..self
            },
            EditorAction::Reconstruct,
        )
    }

    /// A sample size was read from the menu; a text that is no number is ignored.
    pub open spec fn after_sample_size(self, parsed: Option<usize>) -> EditorModel<P> {
        match parsed {
            Some(size) => EditorModel { sample_size: size, ..self },
            None => self,
        }
    }

    /// The pointer went down at `position`: a stroke starts with a point there.
    pub open spec fn after_mouse_down(self, position: P) -> (EditorModel<P>, EditorAction<P>) {
        (
            EditorModel {
                is_drawing: true,
                active_test_signal: None,
                preset_selection: PresetSelection::DrawMode,
                last_draw_position: Some(position),
                ..self
            },
            EditorAction::UpsertPoint(position),
        )
    }

    /// The pointer moved to `position`: while drawing, the stroke is continued from the
    /// previous position; otherwise nothing happens.
    pub open spec fn after_mouse_move(self, position: P) -> (EditorModel<P>, EditorAction<P>) {
        if !self.is_drawing {
            (self, EditorAction::Nothing)
        } else {
            (
                EditorModel { last_draw_position: Some(position), ..self },
                match self.last_draw_position {
                    Some(previous) => EditorAction::DrawSegment(previous, position),
                    None => EditorAction::UpsertPoint(position),
                },
            )
        }
    }

    /// The pointer was released or left the drawing area: the stroke ends.
    pub open spec fn after_mouse_release(self) -> EditorModel<P> {
        EditorModel { is_drawing: false, last_draw_position: None, ..self }
    }
}

/// The waveform editor's state machine.
pub struct WaveformEditor<P> {
    model: EditorModel<P>,
}

impl<P> View for WaveformEditor<P> {
    type V = EditorModel<P>;

    closed spec fn view(&self) -> EditorModel<P> {
        self.model
    }
}

impl<P> WaveformEditor<P> {
    #[verifier::type_invariant]
    spec fn consistent(self) -> bool {
        self.model.is_consistent()
    }
}

impl<P: Copy> WaveformEditor<P> {
    pub fn new() -> (editor: WaveformEditor<P>)
        ensures
            editor@ == EditorModel::<P>::initial(),
            editor@.is_consistent(),
    {
        WaveformEditor {
            model: EditorModel {
                is_drawing: false,
                active_test_signal: None,
                preset_selection: PresetSelection::DrawMode,
                last_draw_position: None,
                sample_size: DEFAULT_SAMPLE_SIZE,
            },
        }
    }

    pub fn is_drawing(&self) -> (drawing: bool)
        ensures
            drawing == self@.is_drawing,
    {
        self.model.is_drawing
    }

    pub fn active_test_signal(&self) -> (kind: Option<TestSignalKind>)
        ensures
            kind == self@.active_test_signal,
    {
        self.model.active_test_signal
    }

    pub fn preset_selection(&self) -> (selection: PresetSelection)
        ensures
            selection == self@.preset_selection,
    {
        self.model.preset_selection
    }

    pub fn sample_size(&self) -> (size: usize)
        ensures
            size == self@.sample_size,
    {
        self.model.sample_size
    }

    /// Handles a preset menu entry.
    pub fn select_preset(&mut self, selection: PresetSelection) -> (action: EditorAction<P>)
        ensures
            (final(self)@, action) == old(self)@.after_preset(selection),
            final(self)@.is_consistent(),
            selection.spec_signal_kind() matches Some(kind) ==> action == EditorAction::<
                P,
            >::LoadTestSignal(kind) && final(self)@.active_test_signal == Some(kind),
    {
        let sample_size = self.model.sample_size;
        match selection {
            PresetSelection::DrawMode => {
                self.model = EditorModel {
                    is_drawing: false,
                    active_test_signal: None,
                    preset_selection: PresetSelection::DrawMode,
                    last_draw_position: None,
                    sample_size,
                };
                EditorAction::Nothing
            },
            PresetSelection::Clear => {
                self.model = EditorModel {
                    is_drawing: false,
                    active_test_signal: None,
                    preset_selection: PresetSelection::DrawMode,
                    last_draw_position: None,
                    sample_size,
                };
                EditorAction::ClearWaveform
            },
            PresetSelection::SinX
            | PresetSelection::SinXPlusSin2X
            | PresetSelection::SinXPlusSin16X => {
                let kind = match selection.signal_kind() {
                    Some(kind) => kind,
                    None => TestSignalKind::SinX,
                };
                self.model = EditorModel {
                    is_drawing: false,
                    active_test_signal: Some(kind),
                    preset_selection: selection,
                    last_draw_position: None,
                    sample_size,
                };
                EditorAction::LoadTestSignal(kind)
            },
        }
    }

    /// Handles a value of the preset menu; one that names no entry changes nothing.
    pub fn choose_preset(&mut self, value: &str) -> (action: EditorAction<P>)
        ensures
            (final(self)@, action) == old(self)@.after_preset_value(value@),
            final(self)@.is_consistent(),
    {
        proof {
            use_type_invariant(&*self);
        }
        match PresetSelection::from_value(value) {
            Some(selection) => self.select_preset(selection),
            None => EditorAction::Nothing,
        }
    }

    /// Handles the reconstruction button.
    pub fn request_reconstruction(&mut self) -> (action: EditorAction<P>)
        ensures
            (final(self)@, action) == old(self)@.after_reconstruct(),
            final(self)@.is_consistent(),
    {
        let sample_size = self.model.sample_size;
        self.model = EditorModel {
            is_drawing: false,
            active_test_signal: None,
            preset_selection: PresetSelection::DrawMode,
            last_draw_position: None,
            sample_size,
        };
        EditorAction::Reconstruct
    }

    /// Takes a sample size that was read from the menu, if it was a number.
    pub fn apply_parsed_sample_size(&mut self, parsed: Option<usize>)
        ensures
            final(self)@ == old(self)@.after_sample_size(parsed),
            final(self)@.is_consistent(),
            parsed matches Some(size) ==> final(self)@.sample_size == size,
    {
        proof {
            use_type_invariant(&*self);
        }
        if let Some(size) = parsed {
            self.model.sample_size = size;
        }
    }

    /// Handles a value of the sample size menu.
    pub fn choose_sample_size(&mut self, value: &str)
        ensures
            final(self)@ == old(self)@.after_sample_size(spec_parse_usize(value@)),
            final(self)@.is_consistent(),
            spec_parse_usize(value@) matches Some(size) ==> final(self)@.sample_size == size,
    {
        let parsed = parse_usize(value);
        self.apply_parsed_sample_size(parsed);
    }

    /// Handles the pointer going down at `position`.
    pub fn mouse_down(&mut self, position: P) -> (action: EditorAction<P>)
        ensures
            (final(self)@, action) == old(self)@.after_mouse_down(position),
            final(self)@.is_consistent(),
    {
        let sample_size = self.model.sample_size;
        self.model = EditorModel {
            is_drawing: true,
            active_test_signal: None,
            preset_selection: PresetSelection::DrawMode,
            last_draw_position: Some(position),
            sample_size,
        };
        EditorAction::UpsertPoint(position)
    }

    /// Handles the pointer moving to `position`.
    pub fn mouse_move(&mut self, position: P) -> (action: EditorAction<P>)
        ensures
            (final(self)@, action) == old(self)@.after_mouse_move(position),
            final(self)@.is_consistent(),
    {
        proof {
            use_type_invariant(&*self);
        }
        if !self.model.is_drawing {
            return EditorAction::Nothing;
        }
        let action = match self.model.last_draw_position {
            Some(previous) => EditorAction::DrawSegment(previous, position),
            None => EditorAction::UpsertPoint(position),
        };
        self.model.last_draw_position = Some(position);
        action
    }

    /// Handles the pointer being released or leaving the drawing area.
    pub fn mouse_release(&mut self)
        ensures
            final(self)@ == old(self)@.after_mouse_release(),
            final(self)@.is_consistent(),
    {
        proof {
            use_type_invariant(&*self);
        }
        let active_test_signal = self.model.active_test_signal;
        let preset_selection = self.model.preset_selection;
        let sample_size = self.model.sample_size;
        self.model = EditorModel {
            is_drawing: false,
            active_test_signal,
            preset_selection,
            last_draw_position: None,
            sample_size,
        };
    }
}

} // verus!

verus! {

/// A preset form value names an entry exactly when it is that entry's value.
pub proof fn lemma_preset_value_round_trip(selection: PresetSelection, value: Seq<char>)
    ensures
        PresetSelection::spec_from_value(value) == Some(selection) <==> value
            == selection.spec_value(),
{
    reveal_strlit("draw");
    reveal_strlit("clear");
    reveal_strlit("sin_x");
    reveal_strlit("sin_x_plus_sin_2x");
    reveal_strlit("sin_x_plus_sin_16x");
    assert("draw"@ =~= seq!['d', 'r', 'a', 'w']);
    assert("clear"@ =~= seq!['c', 'l', 'e', 'a', 'r']);
    assert("sin_x"@ =~= seq!['s', 'i', 'n', '_', 'x']);
    assert("sin_x_plus_sin_2x"@.len() == 17);
    assert("sin_x_plus_sin_16x"@.len() == 18);
    if value == selection.spec_value() {
        assert(value[0] == selection.spec_value()[0]);
    }
}

/// The page starts consistent, and every event keeps the editor consistent.
pub proof fn lemma_events_keep_consistency<P>(
    model: EditorModel<P>,
    selection: PresetSelection,
    value: Seq<char>,
    parsed: Option<usize>,
    position: P,
)
    requires
        model.is_consistent(),
    ensures
        EditorModel::<P>::initial().is_consistent(),
        model.after_preset(selection).0.is_consistent(),
        model.after_preset_value(value).0.is_consistent(),
        model.after_reconstruct().0.is_consistent(),
        model.after_sample_size(parsed).is_consistent(),
        model.after_mouse_down(position).0.is_consistent(),
        model.after_mouse_move(position).0.is_consistent(),
        model.after_mouse_release().is_consistent(),
{
}

/// Once the pointer is released, moving it neither draws nor changes the editor.
pub proof fn lemma_released_pointer_draws_nothing<P>(model: EditorModel<P>, position: P)
    ensures
        model.after_mouse_release().after_mouse_move(position) == (
            model.after_mouse_release(),
            EditorAction::<P>::Nothing,
        ),
{
}

/// Pressing at `start` and moving to `middle` and then to `end` draws the segment from
/// `start` to `middle` and then the one from `middle` to `end`.
pub proof fn lemma_drag_draws_connected_segments<P>(
    model: EditorModel<P>,
    start: P,
    middle: P,
    end: P,
)
    ensures
        ({
            let pressed = model.after_mouse_down(start);
            let first = pressed.0.after_mouse_move(middle);
            let second = first.0.after_mouse_move(end);
            &&& pressed.1 == EditorAction::UpsertPoint(start)
            &&& first.1 == EditorAction::DrawSegment(start, middle)
            &&& second.1 == EditorAction::DrawSegment(middle, end)
        }),
{
}

} // verus!

verus! {

/// Choosing "clear" empties the waveform and returns the editor to plain drawing mode,
/// with no stroke under way and no synthetic signal, keeping the sample size.
pub proof fn lemma_clear_resets_editor<P>(model: EditorModel<P>)
    ensures
        ({
            let (cleared, action) = model.after_preset_value("clear"@);
            &&& action == EditorAction::<P>::ClearWaveform
            &&& cleared.preset_selection == PresetSelection::DrawMode
            &&& cleared.active_test_signal is None
            &&& !cleared.is_drawing
            &&& cleared.last_draw_position is None
            &&& cleared.sample_size == model.sample_size
        }),
{
    reveal_strlit("draw");
    reveal_strlit("clear");
    assert("draw"@ =~= seq!['d', 'r', 'a', 'w']);
    assert("clear"@ =~= seq!['c', 'l', 'e', 'a', 'r']);
    assert("clear"@ != "draw"@);
}

/// Picking the menu entry of a test signal, by entry or by its form value, loads exactly
/// that entry's signal, makes it the active signal and the menu's entry, ends any stroke
/// and keeps the sample size.
pub proof fn lemma_signal_preset_loads_its_signal<P>(
    model: EditorModel<P>,
    selection: PresetSelection,
    kind: TestSignalKind,
)
    requires
        selection.spec_signal_kind() == Some(kind),
    ensures
        ({
            let (next, action) = model.after_preset(selection);
            &&& action == EditorAction::<P>::LoadTestSignal(kind)
            &&& next.active_test_signal == Some(kind)
            &&& next.preset_selection == selection
            &&& !next.is_drawing
            &&& next.last_draw_position is None
            &&& next.sample_size == model.sample_size
        }),
        ({
            let (next, action) = model.after_preset_value(selection.spec_value());
            &&& action == EditorAction::<P>::LoadTestSignal(kind)
            &&& next.active_test_signal == Some(kind)
            &&& next.preset_selection == selection
            &&& !next.is_drawing
            &&& next.last_draw_position is None
            &&& next.sample_size == model.sample_size
        }),
{
    lemma_preset_value_round_trip(selection, selection.spec_value());
}

/// The test signal entries load sin(x), sin(x) + sin(2x) and sin(x) + sin(16x)
/// respectively, each under its own label.
pub proof fn lemma_signal_entries_and_labels()
    ensures
        PresetSelection::SinX.spec_signal_kind() == Some(TestSignalKind::SinX),
        PresetSelection::SinXPlusSin2X.spec_signal_kind() == Some(TestSignalKind::SinXPlusSin2X),
        PresetSelection::SinXPlusSin16X.spec_signal_kind() == Some(TestSignalKind::SinXPlusSin16X),
        TestSignalKind::SinX.spec_label() == "sin(x)"@,
        TestSignalKind::SinXPlusSin2X.spec_label() == "sin(x) + sin(2x)"@,
        TestSignalKind::SinXPlusSin16X.spec_label() == "sin(x) + sin(16x)"@,
{
}

/// Picking "draw" leaves the waveform alone and "clear" empties it; both return the menu
/// to drawing mode with no active signal and no stroke, keeping the sample size. A value
/// that names no entry changes nothing.
pub proof fn lemma_draw_and_clear_entries<P>(model: EditorModel<P>, value: Seq<char>)
    ensures
        ({
            let (next, action) = model.after_preset(PresetSelection::DrawMode);
            &&& action == EditorAction::<P>::Nothing
            &&& next.preset_selection == PresetSelection::DrawMode
            &&& next.active_test_signal is None
            &&& !next.is_drawing && next.last_draw_position is None
            &&& next.sample_size == model.sample_size
        }),
        ({
            let (next, action) = model.after_preset(PresetSelection::Clear);
            &&& action == EditorAction::<P>::ClearWaveform
            &&& next.preset_selection == PresetSelection::DrawMode
            &&& next.active_test_signal is None
            &&& !next.is_drawing && next.last_draw_position is None
            &&& next.sample_size == model.sample_size
        }),
        PresetSelection::spec_from_value(value) is None ==> model.after_preset_value(value) == (
            model,
            EditorAction::<P>::Nothing,
        ),
{
}

/// Reconstruction asks for the inverse transform, ends any stroke, returns the menu to
/// drawing mode with no active signal, and keeps the sample size.
pub proof fn lemma_reconstruction_request<P>(model: EditorModel<P>)
    ensures
        ({
            let (next, action) = model.after_reconstruct();
            &&& action == EditorAction::<P>::Reconstruct
            &&& next.preset_selection == PresetSelection::DrawMode
            &&& next.active_test_signal is None
            &&& !next.is_drawing && next.last_draw_position is None
            &&& next.sample_size == model.sample_size
        }),
{
}

/// Any parsed sample size becomes the sample size, whatever it was before, with the rest
/// of the editor unchanged; the last of two choices wins; no number changes nothing.
pub proof fn lemma_sample_size_choice_sets_size<P>(model: EditorModel<P>, first: usize, second: usize)
    ensures
        ({
            let next = model.after_sample_size(Some(first));
            &&& next.sample_size == first
            &&& next.is_drawing == model.is_drawing
            &&& next.active_test_signal == model.active_test_signal
            &&& next.preset_selection == model.preset_selection
            &&& next.last_draw_position == model.last_draw_position
        }),
        model.after_sample_size(Some(first)).after_sample_size(Some(second)).sample_size == second,
        model.after_sample_size(None) == model,
{
}

/// Pressing sets a point where the pointer is and starts a stroke there; moving while
/// drawing draws from the previous position to the new one and remembers the new one;
/// releasing ends the stroke. Menu, active signal and sample size are untouched by moves
/// and releases.
pub proof fn lemma_pointer_events<P>(model: EditorModel<P>, position: P)
    ensures
        ({
            let (next, action) = model.after_mouse_down(position);
            &&& action == EditorAction::<P>::UpsertPoint(position)
            &&& next.is_drawing
            &&& next.last_draw_position == Some(position)
            &&& next.preset_selection == PresetSelection::DrawMode
            &&& next.active_test_signal is None
            &&& next.sample_size == model.sample_size
        }),
        model.is_drawing ==> ({
            let (next, action) = model.after_mouse_move(position);
            &&& (model.last_draw_position matches Some(previous) ==> action
                == EditorAction::<P>::DrawSegment(previous, position))
            &&& next.is_drawing
            &&& next.last_draw_position == Some(position)
            &&& next.preset_selection == model.preset_selection
            &&& next.active_test_signal == model.active_test_signal
            &&& next.sample_size == model.sample_size
        }),
        !model.is_drawing ==> model.after_mouse_move(position) == (model, EditorAction::<P>::Nothing),
        ({
            let next = model.after_mouse_release();
            &&& !next.is_drawing
            &&& next.last_draw_position is None
            &&& next.preset_selection == model.preset_selection
            &&& next.active_test_signal == model.active_test_signal
            &&& next.sample_size == model.sample_size
        }),
{
}

} // verus!

verus! {

/// Handling an entry's form value does exactly what picking that entry does.
pub proof fn lemma_preset_value_picks_entry<P>(model: EditorModel<P>, selection: PresetSelection)
    ensures
        model.after_preset_value(selection.spec_value()) == model.after_preset(selection),
{
    lemma_preset_value_round_trip(selection, selection.spec_value());
}

/// The page opens in drawing mode, with no stroke, no synthetic signal and 256 samples.
pub proof fn lemma_editor_opens_in_draw_mode<P>()
    ensures
        ({
            let start = EditorModel::<P>::initial();
            &&& !start.is_drawing
            &&& start.last_draw_position is None
            &&& start.active_test_signal is None
            &&& start.preset_selection == PresetSelection::DrawMode
            &&& start.sample_size == 256
        }),
{
}

} // verus!
