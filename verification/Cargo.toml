[package]
name = "visuara"
version = "0.1.0"
edition = "2021"
publish = false

[dependencies]
anyhow = "=1.0.104"
argon2 = "=0.5.3"
axum = { version = "=0.8.9", features = ["ws"] }
base64 = "=0.22.1"
bincode = "=1.3.3"
clap = { version = "=4.6.7", features = ["derive"] }
dashmap = "=6.2.1"
dirs = "=5.0.1"
futures-util = "=0.3.34"
hmac = "=0.12.1"
rand = "=0.8.8"
reqwest = { version = "=0.12.28", default-features = false, features = ["json", "rustls-tls"] }
rusqlite = { version = "=0.32.1", features = ["bundled"] }
serde = { version = "=1.0.229", features = ["derive"] }
serde_json = "=1.0.154"
sha1 = "=0.10.7"
tokio = { version = "=1.54.1", features = ["full"] }
tokio-tungstenite = "=0.24.0"
tracing = "=0.1.44"
tracing-subscriber = "=0.3.23"
uuid = { version = "=1.29.0", features = ["v4"] }
