[package]
name = "diaudio"
version = "0.1.0"
edition = "2021"
publish = false

[dependencies]
dioxus = { version = "0.6", features = ["router", "web"] }
rustfft = "6"
web-sys = { version = "0.3", features = ["AudioContext", "AudioNode", "AudioParam", "AudioDestinationNode", "GainNode", "OscillatorNode", "OscillatorType", "AnalyserNode", "MediaStream", "MediaDevices", "MediaStreamConstraints", "MediaStreamAudioSourceNode", "Navigator", "Window", "BaseAudioContext", "AudioScheduledSourceNode"] }
gloo-timers = { version = "0.3", features = ["futures"] }
wasm-bindgen = "0.2"
wasm-bindgen-futures = "0.4"
