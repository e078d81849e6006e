[package]
name = "asset_classification"
version = "3.3.0"
edition = "2021"
publish = false

[dependencies]
bech32 = "0.9"
uuid = { version = "1", features = ["v4"] }
semver = "1"
cosmwasm-std = "2"
cw-storage-plus = "2"
provwasm-std = "2"
os-gateway-contract-attributes = "*"
result-extensions = "*"
schemars = "0.8"
serde = { version = "1", default-features = false, features = ["derive"] }
thiserror = "1"
