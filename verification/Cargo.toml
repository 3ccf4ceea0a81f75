[package]
name = "bilive_danmaku"
version = "0.1.0"
edition = "2021"
publish = false

[dependencies]
serde_json = "1"
brotli = "*"
chrono = "0.4"
serde = { version = "1", features = ["derive"] }
bincode = "1"
tokio = { version = "1", features = ["rt", "net", "time", "macros"] }
tokio-tungstenite = "*"
futures-util = "0.3"
reqwest = { version = "*", default-features = false, features = ["json"] }
