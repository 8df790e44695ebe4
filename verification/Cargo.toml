[package]
name = "greentic_demo"
version = "0.1.0"
edition = "2021"
publish = false

[dependencies]
anyhow = "*"
async-nats = "*"
clap = { version = "*", features = ["derive", "env"] }
dotenvy = "*"
futures = "*"
greentic-telemetry = "*"
nkeys = "*"
parking_lot = "*"
rand = "*"
serde = { version = "*", features = ["derive"] }
serde_json = "*"
tokio = { version = "*", features = ["full"] }
tracing = "*"
tracing-appender = "*"
tracing-subscriber = { version = "*", features = ["env-filter", "json"] }
uuid = { version = "*", features = ["v4"] }
