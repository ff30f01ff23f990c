[package]
name = "miner_core"
version = "0.1.0"
edition = "2021"
publish = false

[dependencies]
solana-sdk = "1.18"
ore-program = "*"
serde = { version = "1", features = ["derive"] }
serde-wasm-bindgen = "0.6"
web-sys = { version = "0.3", features = ["Worker", "Window", "Navigator", "Clipboard"] }
log = "0.4"
dioxus = { version = "0.4", default-features = false, features = ["hooks"] }
