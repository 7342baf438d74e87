[package]
name = "permanent_delegate"
version = "0.1.0"
edition = "2021"
publish = false

[dependencies]
solana-sdk = "2.2"
spl-associated-token-account = { version = "7.0", features = ["no-entrypoint"] }
spl-token-2022 = { version = "8.0", features = ["no-entrypoint"] }
