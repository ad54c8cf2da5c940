[package]
name = "cidacake"
version = "0.1.0"
edition = "2021"
publish = false

[dependencies]
solana-program = "1.18"
solana-sdk = "1.18"
spl-token = { version = "4", features = ["no-entrypoint"] }
serde_json = "1"
thiserror = "1"
tempfile = "3"
