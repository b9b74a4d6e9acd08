[package]
name = "collector"
version = "0.1.0"
edition = "2021"
publish = false

[dependencies]
crc = "*"
axum = "*"
tokio = { version = "*", features = ["full"] }
tokio-serial = "*"
tokio-cron-scheduler = "*"
serialport = { version = "*", default-features = false }
dotenv = "*"
rand = "*"
