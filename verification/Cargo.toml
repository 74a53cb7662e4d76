[package]
name = "arweave_crypto"
version = "0.1.0"
edition = "2021"
publish = false

[dependencies]
base64 = "0.22"
rsa = "0.9"
sha2 = "0.10"
rand = "0.8"
serde_json = "1"
serde = { version = "1", features = ["derive"] }
thiserror = "1"
