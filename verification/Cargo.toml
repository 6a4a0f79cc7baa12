[package]
name = "speedtest_exporter"
version = "0.1.0"
edition = "2021"
publish = false

[dependencies]
serde_json = "1"
axum = "*"
tokio = { version = "*", features = ["full"] }
clap = { version = "*", features = ["derive", "env"] }
dotenv = "*"
log = "*"
pretty_env_logger = "*"
