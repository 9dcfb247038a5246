[package]
name = "ledger_gateway"
version = "0.1.0"
edition = "2021"
publish = false

[dependencies]
sha2 = "0.10"
secp256k1 = "*"
sawtooth-sdk = "0.5"
protobuf = "2"
base64 = "0.13"
grid-sdk = "*"
sabre-sdk = "*"
actix-web = { version = "4", default-features = false }
actix = "0.13"
reqwest = { version = "0.12", default-features = false, features = ["json"] }
serde = { version = "1", features = ["derive"] }
serde_json = "1"
futures = "0.3"
diesel = { version = "2", default-features = false }
