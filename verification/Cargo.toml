[package]
name = "broker_client"
version = "0.1.0"
edition = "2021"
publish = false

[dependencies]
bytes = "1"
circular-buffer = "*"
futures = "0.3"
rand = "0.9"
serde = { version = "1", features = ["derive"] }
serde_json = "1"
tokio = { version = "1", features = ["macros", "rt-multi-thread", "net"] }
tokio-tungstenite = "*"
tungstenite = "*"
