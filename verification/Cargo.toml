[package]
name = "stocks_exporter"
version = "0.1.0"
edition = "2021"
publish = false

[dependencies]
anyhow = "1"
clap = "2"
env_logger = "0.8"
futures = "0.3"
log = "0.4"
prometheus_exporter = "0.8"
reqwest = { version = "0.11", features = ["json"] }
serde_json = "1"
tokio = { version = "1", features = ["full"] }
