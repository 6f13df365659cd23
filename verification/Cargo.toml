[package]
name = "contract"
version = "0.1.0"
edition = "2021"
publish = false

[dependencies]
near-sdk = { version = "=5.30.0", features = ["non-contract-usage"] }
serde = { version = "=1.0.229", features = ["derive"] }
