[package]
name = "marginfi"
version = "0.1.0"
edition = "2021"
publish = false

[dependencies]
fixed = "=1.31.0"
anyhow = "=1.0.104"
lazy_static = "=1.5.1"
serde_json = "=1.0.154"
reqwest = { version = "=0.12.28", default-features = false, features = ["blocking", "json", "rustls-tls"] }
solana-sdk = "=5.0.0"
anchor-lang = "=1.2.1"
spl-token = "=9.0.0"
