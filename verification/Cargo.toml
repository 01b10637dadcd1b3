[package]
name = "dark_city_engine"
version = "0.1.0"
edition = "2021"
publish = false

[dependencies]
bevy_ecs = "0.14"
wgpu = "22"
web-time = "1"
wasm-bindgen = "0.2"
console_error_panic_hook = "0.1"
web-sys = { version = "0.3", features = ["Window", "Document", "Element", "HtmlCanvasElement", "EventTarget", "Event", "MouseEvent", "console"] }
