[package]
name = "solana_api"
version = "0.1.0"
edition = "2021"
publish = false

[dependencies]
axum = "0.7"
base64 = "0.21"
bs58 = "0.4"
ed25519-dalek = "1.0.1"
serde = { version = "1", features = ["derive"] }
solana-sdk = "1.18"
spl-token = "4"
tokio = { version = "1", features = ["macros", "net", "rt-multi-thread"] }
