[package]
name = "vayoo_contracts"
version = "0.1.0"
edition = "2021"
publish = false

[dependencies]
anchor-lang = "=0.28.0"
anchor-spl = { version = "=0.28.0", default-features = false, features = ["token", "mint", "associated_token"] }
pyth-sdk-solana = "=0.8.0"
switchboard-v2 = "=0.4.0"
whirlpool-cpi = "=0.1.0"
