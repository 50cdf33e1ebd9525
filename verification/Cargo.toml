[package]
name = "ws_stream"
version = "0.1.0"
edition = "2021"
publish = false

[dependencies]
bytes = "=1.12.1"
futures-channel = "=0.3.34"
futures-util = { version = "=0.3.34", features = ["sink"] }
js-sys = "=0.3.106"
wasm-bindgen = "=0.2.129"
web-sys = { version = "=0.3.106", features = ["WebSocket", "BinaryType", "MessageEvent", "CloseEvent", "ErrorEvent", "Event", "Blob", "BlobPropertyBag"] }
