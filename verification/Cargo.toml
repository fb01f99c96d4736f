[package]
name = "durable_nonce"
version = "0.1.0"
edition = "2021"
publish = false

[dependencies]
dirs-next = "2"
lazy_static = "1"
serde_json = "1"
solana-sdk = "=1.18.26"
