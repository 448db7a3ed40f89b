//! Note, preset and spectrum logic behind the Diaudio pages: form values, MIDI numbers,
//! the state machines of the note player and of the waveform editor, and the low-pass mask.
pub mod editor;
pub mod note;
pub mod player;
pub mod spectrum;
pub mod text;
