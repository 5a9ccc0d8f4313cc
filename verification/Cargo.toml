[package]
name = "solana_transfer2"
version = "0.1.0"
edition = "2021"
publish = false

[dependencies]
anchor-lang = "*"
