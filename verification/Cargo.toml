[package]
name = "fdb"
version = "0.1.0"
edition = "2021"
publish = false

[dependencies]
sha2 = "0.10"
bs58 = "0.4"
base58 = "0.2"
base64 = "0.13"
ed25519-compact = "2"
libsecp256k1 = "0.7"
tiny-keccak = { version = "2.0", features = ["keccak"] }
hex = "0.4"
serde = { version = "1", features = ["derive"] }
serde_json = "1"
marine-rs-sdk = "*"
marine-sqlite-connector = "*"
eyre = "0.6"
thiserror = "1"
log = "0.4"
