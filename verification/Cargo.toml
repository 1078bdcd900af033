[package]
name = "diagnostic_console"
version = "0.1.0"
edition = "2021"
publish = false

[dependencies]
serde = { version = "*", features = ["derive"] }
yew = { version = "*", features = ["csr"] }
gloo = "*"
web-sys = { version = "*", features = ["Event", "EventTarget", "HtmlInputElement"] }
wasm-bindgen-futures = "*"
