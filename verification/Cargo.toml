[package]
name = "wasm_logger"
version = "0.2.0"
edition = "2021"
publish = false

[dependencies]
log = { version = "=0.4.34", features = ["std"] }
wasm-bindgen = "=0.2.129"
web-sys = { version = "=0.3.106", features = ["console"] }
