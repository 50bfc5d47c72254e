[package]
name = "snake"
version = "0.1.0"
edition = "2021"
publish = false

[dependencies]
rand = "=0.10.3"
wasm-bindgen = "=0.2.129"
js-sys = "=0.3.106"
web-sys = { version = "=0.3.106", features = ["Window", "Document", "Element", "EventTarget", "HtmlCanvasElement", "CanvasRenderingContext2d", "KeyboardEvent", "console"] }
