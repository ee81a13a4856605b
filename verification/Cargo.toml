[package]
name = "rnode"
version = "0.3.0"
edition = "2021"
publish = false

[dependencies]
serde_json = "1"
tokio = { version = "1", features = ["rt-multi-thread", "macros", "sync", "time", "net", "signal"] }
tokio-tungstenite = "0.20"
futures = "0.3"
url = "2"
tracing = "0.1"
tracing-subscriber = "0.3"
