[package]
name = "halal_certification_auth"
version = "0.1.0"
edition = "2021"
publish = false

[dependencies]
regex = "1"
serde = { version = "1", features = ["derive"] }
serde_json = "1"
gloo = "0.11"
wasm-bindgen-futures = "0.4"
web-sys = { version = "0.3", features = ["HtmlInputElement", "Window", "Location"] }
yew = { version = "0.21", features = ["csr"] }
yew-router = "0.18"
