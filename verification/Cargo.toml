[package]
name = "omniflow_rwa"
version = "0.1.0"
edition = "2021"
publish = false

[dependencies]
borsh = "=0.10.4"
anchor-lang = { version = "=0.29.0", features = ["init-if-needed"] }
anchor-spl = "=0.29.0"
mpl-token-metadata = "=3.2.3"
solana-program = "=1.18.26"
