[package]
name = "peer_to_peer_betting"
version = "0.1.0"
edition = "2021"
publish = false

[dependencies]
anchor-lang = { version = "=1.2.1", default-features = false, features = ["solana-v4"] }
solana-pubkey = { version = "=4.4.0", features = ["curve25519"] }
