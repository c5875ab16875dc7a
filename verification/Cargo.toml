[package]
name = "gbemu"
version = "0.1.0"
edition = "2021"
publish = false

[dependencies]
byteorder = "1"
serde = "1"
wasm-bindgen = "0.2"
js-sys = "0.3"
wasm-bindgen-futures = "0.4"
web-sys = { version = "0.3", features = ["Window", "Document", "Element", "HtmlCanvasElement", "CanvasRenderingContext2d", "ImageData", "Performance", "console", "AudioContext", "BaseAudioContext", "AudioNode", "AudioParam", "AudioParamMap", "AudioDestinationNode", "GainNode", "AudioWorkletNode", "AudioWorkletNodeOptions", "BiquadFilterNode", "BiquadFilterType", "AnalyserNode"] }
