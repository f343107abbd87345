[package]
name = "mint_api"
version = "0.1.0"
edition = "2021"
publish = false

[dependencies]
hex = "*"
bitcoin_hashes = "*"
secp256k1-zkp = "*"
serde = { version = "*", features = ["derive"] }
tokio = { version = "*", features = ["sync", "rt", "time"] }
bitcoin = "*"
anyhow = "*"
thiserror = "*"
rand = "*"
async-trait = "*"
futures = "*"
