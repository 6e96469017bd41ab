[package]
name = "solana_bootcamp"
version = "0.1.0"
edition = "2021"
publish = false

[dependencies]
anchor-lang = "0.29.0"
anyhow = "1"
mpl-token-metadata = "4.1"
serde_json = "1"
solana-sdk = "1.17"
spl-associated-token-account = "2.3.0"
spl-token = "4.0.0"
