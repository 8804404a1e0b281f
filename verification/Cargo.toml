[package]
name = "yeet_at"
version = "0.1.0"
edition = "2021"
publish = false

[dependencies]
solana-pubkey = { version = "*", features = ["curve25519"] }
pinocchio = "*"
