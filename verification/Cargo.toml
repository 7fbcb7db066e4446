[package]
name = "backup_reporter"
version = "0.1.0"
edition = "2021"
publish = false

[dependencies]
axum = "=0.8.9"
chrono = { version = "=0.4.45", features = ["serde"] }
cron = "=0.17.0"
fs2 = "=0.4.3"
reqwest = { version = "=0.13.5", default-features = false, features = ["json"] }
serde = { version = "=1.0.229", features = ["derive"] }
serde_json = "=1.0.151"
tokio = { version = "=1.53.2", features = ["rt-multi-thread", "macros", "net", "time"] }
tokio-cron-scheduler = "=0.15.1"
