[package]
name = "tokenvault"
version = "0.1.0"
edition = "2021"
publish = false

[dependencies]
cosmwasm-std = "=1.5.11"
cosmwasm-storage = "=1.5.2"
schemars = "=0.8.22"
serde = { version = "=1.0.229", features = ["derive"] }
terraswap = "=2.9.0"
