[package]
name = "anchorage"
version = "0.1.0"
edition = "2021"
publish = false

[dependencies]
flume = "=0.12.0"
serde = { version = "=1.0.229", features = ["derive"] }
serde_json = "=1.0.151"
reqwest = { version = "=0.13.5", default-features = false, features = ["query"] }
tokio = { version = "=1.53.2", features = ["rt", "rt-multi-thread", "sync", "time", "net", "macros"] }
tokio-tungstenite = "=0.30.0"
futures = "=0.3.34"
scc = "=3.8.8"
