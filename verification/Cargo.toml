[package]
name = "feed_reader"
version = "0.1.0"
edition = "2021"
publish = false

[dependencies]
switchboard-program = "=0.2.1"
lexical = "=7.0.5"
solana-program = "=1.18.26"

[dev-dependencies]
switchboard-utils = "=0.2.1"
