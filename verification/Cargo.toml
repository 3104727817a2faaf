[package]
name = "sendspin_cli"
version = "0.1.0"
edition = "2021"
publish = false

[dependencies]
sendspin = "*"
tokio = { version = "*", features = ["full"] }
tokio-tungstenite = "*"
futures-util = "*"
serde = { version = "*", features = ["derive"] }
serde_json = "*"
log = "*"
env_logger = "*"
clap = { version = "*", features = ["derive"] }
mdns-sd = "*"
uuid = { version = "*", features = ["v4"] }
