[package]
name = "whisper"
version = "0.1.0"
edition = "2021"
publish = false

[dependencies]
base64 = "=0.22.1"
near-sdk = { version = "=5.29.1", features = ["non-contract-usage"] }
serde_json = "=1.0.154"
