[package]
name = "komment"
version = "0.1.0"
edition = "2021"
publish = false

[dependencies]
serde = { version = "1", features = ["derive"] }
serde_json = "1"
serde-wasm-bindgen = "*"
wasm-bindgen = "0.2"
wasm-bindgen-futures = "0.4"
web-sys = { version = "0.3", features = ["Window", "Document", "Element", "Request", "RequestInit", "RequestMode", "Response", "Headers"] }
reqwest = { version = "0.12", default-features = false, features = ["json"] }
worker = "*"
