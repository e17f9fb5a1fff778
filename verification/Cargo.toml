[package]
name = "lindera_wasm"
version = "0.1.0"
edition = "2021"
publish = false

[dependencies]
lindera = "=6.2.0"
serde = { version = "*", features = ["derive"] }
serde_json = "*"
lazy_static = "*"
wasm-bindgen = "*"
