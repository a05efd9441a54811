[package]
name = "lending_protocol"
version = "0.1.0"
edition = "2021"
publish = false

[dependencies]
ra-solana-math = "=0.1.1"
anchor-lang = { version = "=1.2.2", features = ["init-if-needed"] }
anchor-spl = "=1.2.2"
solana-security-txt = "=1.1.3"
solana-sha256-hasher = { version = "=3.1.0", features = ["sha2"] }
