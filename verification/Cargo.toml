[package]
name = "workspaces"
version = "0.1.0"
edition = "2021"
publish = false

[dependencies]
anyhow = "=1.0.104"
async-trait = "=0.1.92"
near-crypto = "=0.37.4"
near-jsonrpc-client = { version = "=0.22.0", features = ["sandbox"] }
near-jsonrpc-primitives = "=0.37.4"
near-primitives = { version = "=0.37.4", features = ["test_utils"] }
rand = "=0.8.8"
reqwest = { version = "=0.12.28", features = ["json"] }
serde_json = "=1.0.154"
tokio = { version = "=1.54.1", features = ["time"] }
