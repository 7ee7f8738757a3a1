[package]
name = "mqtt_prometheus_relay"
version = "0.1.0"
edition = "2021"
publish = false

[dependencies]
anyhow = "*"
axum = "*"
clap = { version = "*", features = ["derive"] }
dashmap = "*"
rumqttc = "*"
serde_json = "*"
tokio = { version = "*", features = ["rt", "macros", "net", "time", "sync"] }
tracing = "*"
tracing-subscriber = { version = "*", features = ["env-filter", "fmt"] }
uuid = { version = "*", features = ["v4"] }
