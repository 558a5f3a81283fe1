[package]
name = "identity_core"
version = "0.1.0"
edition = "2021"
publish = false

[dependencies]
ed25519-dalek = { version = "2", features = ["rand_core"] }
hex = "0.4"
openmls = "*"
openmls_basic_credential = "*"
openmls_rust_crypto = "*"
openmls_traits = "*"
rand = "0.8"
sha2 = "0.10"
time = "0.3"
