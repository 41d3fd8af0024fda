[package]
name = "anomaly-detector"
version = "0.1.0"
edition = "2021"
publish = false

[dependencies]
actix-web = "4"
chrono = { version = "0.4", features = ["serde"] }
dashmap = "6"
dotenv = "0.15"
env_logger = "0.11"
log = "0.4"
serde = { version = "1", features = ["derive"] }
serde_json = "1"
tokio = { version = "1", features = ["sync"] }
