[package]
name = "solkit"
version = "0.1.0"
edition = "2021"
publish = false

[dependencies]
solana-sdk = "=2.2.2"
solana-program = "=2.2.1"
spl-token = "=6.0.0"
rand = "=0.7.3"
shellexpand = "=3.1.2"
