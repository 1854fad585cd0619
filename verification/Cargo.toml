[package]
name = "solana_presale"
version = "0.1.0"
edition = "2021"
publish = false

[dependencies]
anchor-lang = "0.28"
anchor-spl = "0.28"
solana-program = "1.16"
