[package]
name = "fmp_polling"
version = "0.1.0"
edition = "2021"
publish = false

[dependencies]
serde = { version = "1", features = ["derive"] }
serde_json = "1"
tokio = { version = "1", features = ["full"] }
reqwest = { version = "0.12", default-features = false, features = ["json", "rustls-tls"] }
futures = "0.3"
futures-util = "0.3"
metrics = "0.24"
tracing = "0.1"
tracing-subscriber = "0.3"
async-tungstenite = { version = "*", features = ["tokio-runtime"] }
tungstenite = "*"
chrono = "0.4"
lru = "*"
config = "*"
