[package]
name = "simple_stake"
version = "0.1.0"
edition = "2021"
publish = false

[dependencies]
anchor-lang = "=1.2.1"
anchor-spl = "=1.2.1"
spl-token = "=9.0.0"
solana-pubkey = { version = "=3.0.0", features = ["curve25519"] }
