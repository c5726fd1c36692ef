[package]
name = "discern"
version = "0.1.0"
edition = "2021"
publish = false

[dependencies]
serde_json = "1"
tokio = { version = "1", features = ["full"] }
tokio-tungstenite = "0.21"
tungstenite = "0.21"
futures = "0.3"
futures-util = "0.3"
futures-channel = "0.3"
http = "1"
reqwest = { version = "0.11", features = ["json"] }
clap = { version = "3", features = ["cargo"] }
string-builder = "*"
bytes = "1"
