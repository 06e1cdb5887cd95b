[package]
name = "p2swap"
version = "0.1.0"
edition = "2021"
publish = false

[dependencies]
anchor-lang = "=1.2.1"
anchor-spl = { version = "=1.2.1", default-features = false, features = ["token", "solana-v3"] }
bs58 = "=0.5.1"
chrono = "=0.4.45"
clap = { version = "=4.6.7", features = ["derive"] }
indicatif = "=0.18.6"
solana-sdk = "=5.0.0"
spl-token = "=9.0.0"
thiserror = "=2.0.21"
