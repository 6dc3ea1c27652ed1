[package]
name = "quidproquo"
version = "0.1.0"
edition = "2021"
publish = false

[dependencies]
anchor-lang = { version = "=0.26.0", features = ["init-if-needed"] }
anchor-spl = { version = "=0.26.0", default-features = false, features = ["token", "associated_token"] }
metaplex-token-metadata = { version = "=0.0.1", features = ["no-entrypoint"] }
solana-program = "=1.14.29"
