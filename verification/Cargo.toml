[package]
name = "coinflip"
version = "1.0.0"
edition = "2021"
publish = false

[dependencies]
borsh = "0.10"
solana-program = "1.18"
solana-security-txt = "1.1"
thiserror = "1.0"
