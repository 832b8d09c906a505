[package]
name = "wallet_adapter"
version = "0.1.0"
edition = "2021"
publish = false

[dependencies]
ed25519-dalek = "1"
js-sys = "0.3"
wasm-bindgen = "0.2"
wasm-bindgen-futures = "0.4"
