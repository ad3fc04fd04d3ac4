[package]
name = "keyplace"
version = "0.1.0"
edition = "2021"
publish = false

[dependencies]
base64 = "0.13"
ed25519-dalek = "1"
sha2 = "0.9"
hmac = "0.10"
scrypt = "0.7"
rand = "0.7"
zeroize = "1"
serde = { version = "1", features = ["derive"] }
bincode = "1"
