[package]
name = "namsex_core"
version = "0.1.0"
edition = "2021"
publish = false

[dependencies]
uuid = { version = "=1.29.1", features = ["v4", "js"] }
once_cell = "=1.21.4"
tokio = { version = "=1.54.1", features = ["rt", "sync"] }
wasm-bindgen = "=0.2.130"
wasm-bindgen-futures = "=0.4.80"
web-sys = { version = "=0.3.107", features = ["console", "Window", "Document", "HtmlElement", "HtmlButtonElement", "Element", "Node", "EventTarget"] }
console_error_panic_hook = "=0.1.7"
