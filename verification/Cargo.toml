[package]
name = "maion"
version = "0.1.0"
edition = "2021"
publish = false

[dependencies]
rand = "0.8"
hex = "0.4"
hematite-nbt = "0.5"
serde = { version = "1", features = ["derive"] }
serde_json = "1"
tokio-tungstenite = "*"
futures-util = "0.3"
deadqueue = "0.2"
