[package]
name = "fractalwonder_ui"
version = "0.1.0"
edition = "2021"
publish = false

[dependencies]
base64 = "=0.22.1"
flate2 = "=1.1.10"
serde = { version = "=1.0.229", features = ["derive"] }
serde_json = "=1.0.154"
log = "=0.4.35"
wasm-bindgen = "0.2"
wasm-bindgen-futures = "0.4"
js-sys = "0.3"
futures = "0.3"
web-sys = { version = "0.3", features = ["Window", "Storage", "Location", "History", "Performance", "HtmlCanvasElement", "CanvasRenderingContext2d", "ImageData", "Document", "Element", "HashChangeEvent", "Event", "EventTarget", "Response"] }
