[package]
name = "signet"
version = "0.1.0"
edition = "2021"
publish = false

[dependencies]
anchor-lang = { version = "=0.31.2", features = ["event-cpi"] }
libsecp256k1 = "0.6"
solana-sdk = "2.2"
