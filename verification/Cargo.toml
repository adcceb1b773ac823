[package]
name = "relaxed_ik"
version = "0.1.0"
edition = "2021"
publish = false

[dependencies]
yaml-rust = "=0.4.5"
nalgebra = "=0.30.1"
parry3d-f64 = "=0.8.0"
k = "=0.29.1"
urdf-rs = "=0.6.9"
serde = { version = "=1.0.229", features = ["derive"] }
serde_json = "=1.0.154"
serde-wasm-bindgen = "=0.6.5"
wasm-bindgen = "=0.2.129"
js-sys = "=0.3.106"
console_error_panic_hook = "=0.1.7"
