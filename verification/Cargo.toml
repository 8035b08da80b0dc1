[package]
name = "key_grinder"
version = "0.1.0"
edition = "2021"
publish = false

[dependencies]
solana-sdk = "2"
serde_json = "*"
dotenvy = "*"
