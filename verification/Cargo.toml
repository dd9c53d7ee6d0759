[package]
name = "collection_provision"
version = "0.1.0"
edition = "2021"
publish = false

[dependencies]
anyhow = "1"
mpl-token-metadata = "3.2"
solana-sdk = "1"
spl-associated-token-account = { version = "2", features = ["no-entrypoint"] }
spl-token = { version = "4", features = ["no-entrypoint"] }
