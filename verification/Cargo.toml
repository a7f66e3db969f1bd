[package]
name = "subscriptions"
version = "0.1.0"
edition = "2021"
publish = false

[dependencies]
anchor-lang = { version = "=1.2.2", features = ["init-if-needed"] }
anchor-spl = { version = "=1.2.2", default-features = false, features = ["solana-v3", "token", "associated_token"] }
solana-program-option = "=3.1.0"
