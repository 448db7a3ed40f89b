# Diaudio

Playing with sound in the browser: pick a note and hear it, draw a waveform and
see its spectrum, watch the microphone in real time.

- `src/` is the verified library: note names, accidentals and MIDI numbers
  (`note`), the note player's state machine (`player`), the waveform editor's
  state machine and its presets (`editor`), the low-pass mask on spectrum bins
  (`spectrum`) and the reading of form values (`text`).
- `app/` is the Dioxus program around it: the pages, the Web Audio calls, and
  the floating-point drawing, resampling and FFT code (rustfft).
- `tests/` runs the library on concrete values.
