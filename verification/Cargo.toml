[package]
name = "exgstream"
version = "0.1.0"
edition = "2021"
publish = false

[dependencies]
url = "2"
serialport = { version = "4", default-features = false }
btleplug = "0.11"
tokio = { version = "1", features = ["rt-multi-thread", "time", "sync", "macros"] }
tungstenite = "0.20"
lsl = "0.1"
futures = "0.3"
serde_json = "1"
