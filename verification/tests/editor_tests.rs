use diaudio::editor::{
    EditorAction, PresetSelection, TestSignalKind, WaveformEditor, DEFAULT_SAMPLE_SIZE,
};

const PRESETS: [PresetSelection; 5] = [
    PresetSelection::DrawMode,
    PresetSelection::Clear,
    PresetSelection::SinX,
    PresetSelection::SinXPlusSin2X,
    PresetSelection::SinXPlusSin16X,
];

fn assert_consistent(editor: &WaveformEditor<(i32, i32)>) {
    assert_ne!(editor.preset_selection(), PresetSelection::Clear);
    assert_eq!(editor.active_test_signal(), editor.preset_selection().signal_kind());
}

#[test]
fn preset_values_and_round_trip() {
    let values: Vec<&str> = PRESETS.iter().map(|p| p.value()).collect();
    assert_eq!(
        values,
        vec!["draw", "clear", "sin_x", "sin_x_plus_sin_2x", "sin_x_plus_sin_16x"]
    );
    for preset in PRESETS {
        assert_eq!(PresetSelection::from_value(preset.value()), Some(preset));
    }
    assert_eq!(PresetSelection::from_value("sin_2x"), None);
    assert_eq!(PresetSelection::from_value(""), None);
}

#[test]
fn preset_signal_kinds_and_labels() {
    assert_eq!(PresetSelection::DrawMode.signal_kind(), None);
    assert_eq!(PresetSelection::Clear.signal_kind(), None);
    assert_eq!(PresetSelection::SinX.signal_kind(), Some(TestSignalKind::SinX));
    assert_eq!(PresetSelection::SinXPlusSin2X.signal_kind(), Some(TestSignalKind::SinXPlusSin2X));
    assert_eq!(
        PresetSelection::SinXPlusSin16X.signal_kind(),
        Some(TestSignalKind::SinXPlusSin16X)
    );
    assert_eq!(TestSignalKind::SinX.label(), "sin(x)");
    assert_eq!(TestSignalKind::SinXPlusSin2X.label(), "sin(x) + sin(2x)");
    assert_eq!(TestSignalKind::SinXPlusSin16X.label(), "sin(x) + sin(16x)");
}

#[test]
fn editor_starts_in_draw_mode() {
    let editor: WaveformEditor<(i32, i32)> = WaveformEditor::new();
    assert!(!editor.is_drawing());
    assert_eq!(editor.active_test_signal(), None);
    assert_eq!(editor.preset_selection(), PresetSelection::DrawMode);
    assert_eq!(editor.sample_size(), DEFAULT_SAMPLE_SIZE);
    assert_eq!(editor.sample_size(), 256);
}

#[test]
fn editor_drag_draws_connected_segments() {
    let mut editor: WaveformEditor<(i32, i32)> = WaveformEditor::new();
    assert_eq!(editor.mouse_move((1, 1)), EditorAction::Nothing);
    assert_eq!(editor.mouse_down((10, 20)), EditorAction::UpsertPoint((10, 20)));
    assert!(editor.is_drawing());
    assert_eq!(editor.mouse_move((15, 30)), EditorAction::DrawSegment((10, 20), (15, 30)));
    assert_eq!(editor.mouse_move((40, 5)), EditorAction::DrawSegment((15, 30), (40, 5)));
    editor.mouse_release();
    assert!(!editor.is_drawing());
    assert_eq!(editor.mouse_move((50, 50)), EditorAction::Nothing);
    assert_consistent(&editor);
}

#[test]
fn editor_presets() {
    let mut editor: WaveformEditor<(i32, i32)> = WaveformEditor::new();
    assert_eq!(
        editor.choose_preset("sin_x_plus_sin_16x"),
        EditorAction::LoadTestSignal(TestSignalKind::SinXPlusSin16X)
    );
    assert_eq!(editor.active_test_signal(), Some(TestSignalKind::SinXPlusSin16X));
    assert_eq!(editor.preset_selection(), PresetSelection::SinXPlusSin16X);
    assert_consistent(&editor);

    assert_eq!(editor.choose_preset("bogus"), EditorAction::Nothing);
    assert_eq!(editor.preset_selection(), PresetSelection::SinXPlusSin16X);

    assert_eq!(editor.choose_preset("clear"), EditorAction::ClearWaveform);
    assert_eq!(editor.active_test_signal(), None);
    assert_eq!(editor.preset_selection(), PresetSelection::DrawMode);

    assert_eq!(editor.select_preset(PresetSelection::SinX), EditorAction::LoadTestSignal(TestSignalKind::SinX));
    assert_eq!(editor.choose_preset("draw"), EditorAction::Nothing);
    assert_eq!(editor.active_test_signal(), None);
    assert_consistent(&editor);
}

#[test]
fn editor_preset_ends_a_stroke() {
    let mut editor: WaveformEditor<(i32, i32)> = WaveformEditor::new();
    editor.mouse_down((3, 4));
    assert_eq!(editor.choose_preset("sin_x"), EditorAction::LoadTestSignal(TestSignalKind::SinX));
    assert!(!editor.is_drawing());
    assert_eq!(editor.mouse_move((5, 6)), EditorAction::Nothing);
}

#[test]
fn editor_drawing_leaves_test_signal() {
    let mut editor: WaveformEditor<(i32, i32)> = WaveformEditor::new();
    editor.choose_preset("sin_x_plus_sin_2x");
    editor.mouse_down((0, 0));
    assert_eq!(editor.active_test_signal(), None);
    assert_eq!(editor.preset_selection(), PresetSelection::DrawMode);
    assert_consistent(&editor);
}

#[test]
fn editor_reconstruction() {
    let mut editor: WaveformEditor<(i32, i32)> = WaveformEditor::new();
    editor.choose_preset("sin_x");
    editor.mouse_down((1, 2));
    assert_eq!(editor.request_reconstruction(), EditorAction::Reconstruct);
    assert!(!editor.is_drawing());
    assert_eq!(editor.active_test_signal(), None);
    assert_eq!(editor.preset_selection(), PresetSelection::DrawMode);
}

#[test]
fn editor_sample_size() {
    let mut editor: WaveformEditor<(i32, i32)> = WaveformEditor::new();
    editor.choose_sample_size("1024");
    assert_eq!(editor.sample_size(), 1024);
    editor.choose_sample_size("many");
    assert_eq!(editor.sample_size(), 1024);
    editor.choose_sample_size("0");
    assert_eq!(editor.sample_size(), 0);
    editor.apply_parsed_sample_size(None);
    assert_eq!(editor.sample_size(), 0);
    editor.apply_parsed_sample_size(Some(128));
    assert_eq!(editor.sample_size(), 128);
}

#[test]
fn editor_sample_size_text_forms() {
    let mut editor: WaveformEditor<(i32, i32)> = WaveformEditor::new();
    editor.choose_sample_size("+512");
    assert_eq!(editor.sample_size(), 512);
    editor.choose_sample_size("1_024");
    assert_eq!(editor.sample_size(), 512);
    editor.choose_sample_size("-128");
    assert_eq!(editor.sample_size(), 512);
    editor.choose_sample_size("99999999999999999999999999");
    assert_eq!(editor.sample_size(), 512);
    editor.choose_sample_size("0128");
    assert_eq!(editor.sample_size(), 128);
}
