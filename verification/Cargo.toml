[package]
name = "near_fetch"
version = "0.1.0"
edition = "2021"
publish = false

[dependencies]
near-gas = "*"
near-token = "*"
tokio-retry = "0.3"
tokio = { version = "1", features = ["rt", "time", "sync", "macros"] }
near-jsonrpc-client = "*"
near-jsonrpc-primitives = "*"
near-primitives = "*"
near-crypto = "*"
near-account-id = "*"
serde = "1"
serde_json = "1"
thiserror = "1"
