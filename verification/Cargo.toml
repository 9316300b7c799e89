[package]
name = "shreds_client"
version = "0.1.0"
edition = "2021"
publish = false

[dependencies]
bs58 = "0.4"
hex = "0.4"
rayon = "1"
num_cpus = "1"
tokio = { version = "1", features = ["rt-multi-thread"] }
bincode = "1"
solana-sdk = "1.18"
solana-program = "1.18"
solana-entry = "1.18"
