[package]
name = "evm_tx"
version = "0.1.0"
edition = "2021"
publish = false

[dependencies]
serde_json = "*"
serde = { version = "*", features = ["derive"] }
schemars = "*"

[dev-dependencies]
hex = "*"
rlp = "*"
