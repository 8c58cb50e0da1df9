[package]
name = "echo-server"
version = "0.1.0"
edition = "2021"
publish = false

[dependencies]
a2 = "0.10"
async-trait = "0.1"
axum = { version = "0.7", features = ["json", "multipart", "tokio"] }
base64 = "0.21"
ed25519-dalek = "2"
fcm = "0.9"
hex = "0.4"
hyper = "1"
jsonwebtoken = "8"
serde = { version = "1", features = ["derive"] }
serde_json = "1"
tracing = "0.1"
