[package]
name = "mezzenger"
version = "0.1.0"
edition = "2021"
publish = false

[dependencies]
bytes = "=1.12.1"
futures = "=0.3.34"
kodec = { version = "=0.1.0", features = ["binary"] }
parking_lot = "=0.12.5"
serde = { version = "=1.0.229", features = ["derive"] }
tokio = { version = "=1.54.1", features = ["net", "io-util"] }
tokio-util = { version = "=0.7.20", features = ["io"] }
tungstenite = { version = "=0.30.0", default-features = false }
