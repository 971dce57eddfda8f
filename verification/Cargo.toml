[package]
name = "nats_bridge"
version = "0.1.0"
edition = "2021"
publish = false

[dependencies]
async-nats = "*"
bytes = "1"
futures = "0.3"
once_cell = "1"
serde = { version = "1", features = ["derive"] }
serde_json = "1"
tokio = { version = "1", features = ["rt-multi-thread", "time", "sync", "macros"] }
