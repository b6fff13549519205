[package]
name = "uptime_ledger"
version = "0.1.0"
edition = "2021"
publish = false

[dependencies]
argon2 = { version = "=0.5.3", features = ["std"] }
axum = { version = "=0.8.9", features = ["macros"] }
bs58 = "=0.5.1"
chrono = { version = "=0.4.45", default-features = false, features = ["clock"] }
dotenvy = "=0.15.7"
http = "=1.5.0"
jsonwebtoken = { version = "=10.4.0", default-features = false, features = ["rust_crypto"] }
serde = { version = "=1.0.229", features = ["derive"] }
serde_json = { version = "=1.0.154", features = ["preserve_order"] }
solana-sdk = "=2.3.1"
tokio = { version = "=1.54.1", features = ["rt-multi-thread", "macros", "net"] }
tower = "=0.5.3"
tower-http = { version = "=0.6.11", features = ["cors"] }
uuid = { version = "=1.29.0", features = ["v4", "serde"] }
