[package]
name = "candid_json"
version = "0.1.0"
edition = "2021"
publish = false

[dependencies]
candid = "0.8"
wasm-bindgen = "0.2"
getrandom = "0.2"
miracl_core_bls12381 = "*"

[dev-dependencies]
serde_json = "1"
