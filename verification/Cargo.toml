[package]
name = "bitcoincore-rpc"
version = "0.1.0"
edition = "2021"
publish = false

[dependencies]
bitcoin = { version = "0.14", features = ["serde"] }
hex = "0.3"
jsonrpc = "0.10"
serde = { version = "1", features = ["derive"] }
serde_json = "1"
