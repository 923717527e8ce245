[package]
name = "tuicr"
version = "0.7.2"
edition = "2021"
publish = false

[dependencies]
anyhow = "=1.0.104"
chrono = { version = "=0.4.45", features = ["serde"] }
crossterm = "=0.28.1"
dirs = "=5.0.1"
futures-util = "=0.3.34"
git2 = { version = "=0.19.0", default-features = false }
ratatui = "=0.29.0"
serde = { version = "=1.0.229", features = ["derive"] }
serde_json = { version = "=1.0.154", features = ["preserve_order"] }
tokio = { version = "=1.54.1", features = ["rt-multi-thread", "net", "sync", "macros", "fs", "time"] }
tokio-tungstenite = "=0.24.0"
uuid = { version = "=1.29.0", features = ["v4"] }
