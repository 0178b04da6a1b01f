[package]
name = "sol_gateway"
version = "0.1.0"
edition = "2021"
publish = false

[dependencies]
bs58 = "0.5"
base64 = "0.13"
ed25519-dalek = "2"
solana-sdk = "2"
spl-token = "6"
axum = "0.7"
tokio = { version = "1", features = ["rt-multi-thread", "net", "macros"] }
serde = { version = "1", features = ["derive"] }
serde_json = "1"
thiserror = "1"
