[package]
name = "hello_discord"
version = "0.1.0"
edition = "2021"
publish = false

[dependencies]
serde = { version = "1", features = ["derive"] }
serde_json = "1"
serde_repr = "0.1"
rand = "0.8"
chrono = "0.4"
async-lock = "3"
dotenv = "0.15"
tokio = { version = "1", features = ["rt-multi-thread", "macros", "time", "sync", "net"] }
tokio-tungstenite = "*"
futures-util = "0.3"
