[package]
name = "evbmfont"
version = "0.1.0"
edition = "2021"
publish = false

[dependencies]
clap = { version = "3", features = ["derive"] }
console_error_panic_hook = "0.1"
image = "0.24"
wasm-bindgen = "0.2"
