[package]
name = "txaudit"
version = "0.1.0"
edition = "2021"
publish = false

[dependencies]
bitcoin = "0.32"
bitcoincore-rpc = "0.19"
serde = { version = "1", features = ["derive"] }
serde_json = "1"
