[package]
name = "streamshare"
version = "0.1.0"
edition = "2021"
publish = false

[dependencies]
futures = "0.3"
reqwest = "0.12"
serde_json = "1"
shellexpand = "3"
tokio = { version = "1", features = ["fs", "io-util"] }
tokio-tungstenite = { version = "0.24", features = ["native-tls"] }
