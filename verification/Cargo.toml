[package]
name = "sol_core"
version = "0.1.0"
edition = "2021"
publish = false

[dependencies]
bs58 = "0.4"
base64 = "0.22"
ed25519-dalek = "1"
rand = "0.7"
sha2 = "0.9"
curve25519-dalek = "3"
serde = { version = "1", features = ["derive"] }
serde_json = "1"
