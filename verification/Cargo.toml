[package]
name = "agent"
version = "0.1.0"
edition = "2021"
publish = false

[dependencies]
btleplug = "*"
clap = "4"
env_logger = "*"
futures-channel = "0.3"
futures-util = "0.3"
log = "0.4"
rand = "*"
serde = { version = "1", features = ["derive"] }
serde_json = "1"
tempfile = "3"
tokio = { version = "1", features = ["macros", "rt-multi-thread", "process", "io-util", "io-std", "time", "sync"] }
tokio-tungstenite = "*"
url = "2"
uuid = { version = "1", features = ["serde"] }
