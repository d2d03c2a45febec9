[package]
name = "escrow_client"
version = "0.1.0"
edition = "2021"
publish = false

[dependencies]
solana-sdk = "=1.18.26"
anyhow = "=1.0.104"
clap = { version = "=4.5.61", features = ["derive"] }
