[package]
name = "nats_actor"
version = "0.1.0"
edition = "2021"
publish = false

[dependencies]
cloudevents-sdk = "*"
serde_json = "*"
chrono = "*"
serde = { version = "*", features = ["derive"] }
tokio = { version = "*", features = ["rt-multi-thread", "macros", "time", "sync"] }
async-nats = "*"
futures-util = "*"
