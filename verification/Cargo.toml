[package]
name = "dexloan_listings"
version = "0.1.0"
edition = "2021"
publish = false

[dependencies]
anchor-lang = "=0.25.0"
anchor-spl = "=0.25.0"
mpl-token-metadata = { version = "1.2.7", features = ["no-entrypoint"] }
