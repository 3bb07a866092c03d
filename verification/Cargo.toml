[package]
name = "web3_closest_provider"
version = "0.1.0"
edition = "2021"
publish = false

[dependencies]
serde_json = "=1.0.151"
reqwest = { version = "=0.12.28", default-features = false }
tokio = { version = "=1.53.2", features = ["rt", "sync", "time", "macros"] }
