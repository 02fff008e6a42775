[package]
name = "sellify_core"
version = "0.1.0"
edition = "2021"
publish = false

[dependencies]
chrono = "0.4"
rand = "0.8"
machine-uid = "*"
anyhow = "1"
log = "0.4"
env_logger = "0.10"
lazy_static = "1"
serde = { version = "1", features = ["derive"] }
serde_json = "1"
axum = "0.7"
tokio = { version = "1", features = ["rt-multi-thread", "macros", "net", "sync", "time"] }
tower-http = { version = "0.5", features = ["cors", "trace"] }
tokio-cron-scheduler = "*"
prometheus = "0.13"
rusqlite = { version = "*", features = ["bundled"] }
aes-gcm = "0.10"
sha2 = "0.10"
