[package]
name = "shiden"
version = "0.1.0"
edition = "2021"
publish = false

[dependencies]
anyhow = "*"
chrono = "*"
futures = "*"
metrics = "*"
metrics-exporter-prometheus = "*"
tokio = { version = "*", features = ["full"] }
tokio-stream = "*"
tokio-util = "*"
tracing = "*"
tracing-subscriber = "*"
