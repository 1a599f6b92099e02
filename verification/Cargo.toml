[package]
name = "pos_ledger"
version = "0.1.0"
edition = "2021"
publish = false

[dependencies]
ed25519-dalek = { version = "2", features = ["rand_core"] }
sha3 = "0.10"
rand = "0.8"
