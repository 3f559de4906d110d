[package]
name = "tempo_ingest"
version = "0.1.0"
edition = "2021"
publish = false

[dependencies]
solana-sdk = { version = "2", features = ["full"] }
bincode = "1"
bs58 = "*"
rand = "*"
