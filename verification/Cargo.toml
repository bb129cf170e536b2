[package]
name = "splits-io-api"
version = "0.4.0"
edition = "2021"
publish = false

[dependencies]
futures = "0.3"
http = "0.2"
reqwest = { version = "0.11", features = ["multipart"] }
serde_json = "1"
tokio-tungstenite = "*"
url = "2"
uuid = "1"
