[package]
name = "scroll_rs"
version = "0.1.0"
edition = "2021"
publish = false

[dependencies]
wasm-bindgen = "0.2"
gloo = "0.11"
web-sys = { version = "0.3", features = ["Window", "Document", "Element", "DomRect", "History", "ScrollBehavior", "ScrollToOptions"] }
