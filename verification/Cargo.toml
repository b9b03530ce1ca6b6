[package]
name = "mt5_adapter"
version = "0.1.0"
edition = "2021"
publish = false

[dependencies]
hmac = "=0.12.1"
sha2 = "=0.10.9"
hex = "=0.4.3"
serde_json = "=1.0.151"
serde = { version = "=1.0.229", features = ["derive"] }
tokio = { version = "=1.53.2", features = ["rt", "time", "macros", "sync"] }
tokio-tungstenite = "=0.30.0"
futures-util = "=0.3.34"
