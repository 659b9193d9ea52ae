[package]
name = "kpi_dsa"
version = "0.1.0"
edition = "2021"
publish = false

[dependencies]
chrono = "=0.4.45"
eframe = { version = "=0.30.0", default-features = false, features = ["default_fonts", "glow", "x11"] }
wasm-bindgen = "=0.2.130"
wasm-bindgen-futures = "=0.4.80"
js-sys = "=0.3.107"
web-sys = { version = "=0.3.107", features = ["Window", "Document", "Element", "HtmlCanvasElement", "Storage", "Navigator", "Clipboard"] }
console_error_panic_hook = "0.1"
