[package]
name = "invoice_vault"
version = "0.1.0"
edition = "2021"
publish = false

[dependencies]
secret-toolkit = { version = "=0.10.3", features = ["permit", "crypto"] }
secret-cosmwasm-std = "=1.1.11"
secret-cosmwasm-storage = "=1.1.11"
secret-cosmwasm-crypto = "=1.1.11"
bech32 = "=0.9.1"
serde = { version = "=1.0.229", features = ["derive"] }
schemars = "=0.8.22"
