[package]
name = "paper_trading"
version = "0.1.0"
edition = "2021"
publish = false

[dependencies]
anchor-lang = { version = "=0.32.2", features = ["init-if-needed"] }
anchor-spl = "=0.32.2"
mpl-token-metadata = "=5.1.1"
