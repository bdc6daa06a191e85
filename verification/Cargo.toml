[package]
name = "hula_ws"
version = "0.1.0"
edition = "2021"
publish = false

[dependencies]
serde_json = "=1.0.151"
url = "=2.5.8"
chrono = "=0.4.45"
tokio = { version = "=1.53.2", features = ["rt-multi-thread", "macros", "sync", "time", "io-std", "io-util"] }
tokio-tungstenite = "=0.30.0"
futures-util = "=0.3.34"
