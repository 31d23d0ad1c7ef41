[package]
name = "web_handle"
version = "0.1.0"
edition = "2021"
publish = false

[dependencies]
eframe = { version = "*", default-features = false, features = ["glow", "x11"] }
web-sys = { version = "*", features = ["HtmlCanvasElement"] }
tracing-wasm = "*"
console_error_panic_hook = "*"
wasm-bindgen-futures = "*"
