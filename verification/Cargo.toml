[package]
name = "ilias_client"
version = "0.1.0"
edition = "2021"
publish = false

[dependencies]
scraper = "=0.27.0"
base64 = "=0.23.1"
chrono = "=0.4.45"
reqwest = { version = "=0.12.28", default-features = false, features = ["rustls-tls", "cookies", "multipart", "json", "stream"] }
tokio = { version = "=1.53.2", features = ["rt-multi-thread", "fs", "io-util"] }
tokio-stream = "=0.1.19"
tokio-util = { version = "=0.7.19", features = ["io"] }
stream-download = "=0.24.4"
mime_guess = "=2.0.5"
serde = { version = "=1.0.229", features = ["derive"] }
