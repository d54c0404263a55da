[package]
name = "barcode_scan"
version = "0.1.0"
edition = "2021"
publish = false

[dependencies]
rxing = "*"
log = "*"
wasm-bindgen = "*"
js-sys = "*"
wasm-bindgen-futures = "*"
web-sys = { version = "*", features = ["CanvasRenderingContext2d", "Document", "Element", "HtmlCanvasElement", "HtmlVideoElement", "ImageData", "MediaDevices", "MediaStream", "MediaStreamConstraints", "MediaStreamTrack", "MediaTrackConstraints", "Navigator", "VideoFacingModeEnum", "Window"] }
gloo = "*"
wasm-logger = "*"
yew = { version = "*", features = ["csr"] }
