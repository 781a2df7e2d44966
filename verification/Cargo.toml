[package]
name = "wasm-mutate"
version = "0.1.0"
edition = "2021"
publish = false

[dependencies]
egg = "=0.6.0"
rand = { version = "0.7", features = ["small_rng"] }
wasm-encoder = "=0.8.0"
wasmparser = "=0.81.0"
