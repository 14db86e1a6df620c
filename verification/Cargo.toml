[package]
name = "scs"
version = "0.1.0"
edition = "2021"
publish = false

[dependencies]
sha2 = "0.10"
hex = "0.4"
parity-wasm = "0.45"
wasm-instrument = "0.3"
syn = { version = "1", features = ["full"] }
quote = "1"
proc-macro2 = "1"
curve25519-dalek = { version = "4", features = ["digest"] }
sha3 = "0.10"
