[package]
name = "slack_rs"
version = "0.1.0"
edition = "2021"
publish = false

[dependencies]
hmac = "0.12"
sha2 = "0.10"
hex = "0.4"
serde_json = "1"
serde = { version = "1", features = ["derive"] }
slack-morphism = { version = "2", features = ["hyper"] }
axum = "0.7"
tokio = { version = "1", features = ["rt-multi-thread", "macros", "net", "sync"] }
async-trait = "0.1"
bytes = "1"
tracing = "0.1"
tracing-subscriber = "0.3"
hyper = "1"
hyper-util = "0.1"
hyper-rustls = "0.27"
tower = "0.5"
