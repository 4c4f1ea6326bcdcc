[package]
name = "elrond_wasm"
version = "0.1.0"
edition = "2021"
publish = false

[dependencies]
sha2 = "0.10"
sha3 = "0.10"
ed25519-dalek = "1"
