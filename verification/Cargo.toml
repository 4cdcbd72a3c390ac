[package]
name = "liberated_chat"
version = "0.1.0"
edition = "2021"
publish = false

[dependencies]
argon2 = { version = "=0.5.3", features = ["std"] }
rusqlite = { version = "=0.31.0", features = ["bundled"] }
time = "=0.3.55"
uuid = { version = "=1.29.0", features = ["v4"] }
axum = "=0.7.9"
axum-extra = { version = "=0.9.6", features = ["cookie"] }
tokio = { version = "=1.54.1", features = ["full"] }
tower-http = { version = "=0.5.2", features = ["fs", "compression-gzip"] }
dotenv = "=0.15.0"
serde = { version = "=1.0.229", features = ["derive"] }
serde_json = "=1.0.154"
reqwest = { version = "=0.12.28", default-features = false }
