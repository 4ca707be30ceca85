[package]
name = "gh-backup"
version = "0.1.0"
edition = "2021"
publish = false

[dependencies]
anyhow = "=1.0.104"
chrono = { version = "=0.4.45", features = ["serde"] }
clap = { version = "=4.6.7", features = ["derive", "env"] }
colored = "=3.1.1"
futures = "=0.3.34"
futures-util = "=0.3.34"
glob = "=0.3.4"
octocrab = { version = "=0.47.1", features = ["stream"] }
serde = { version = "=1.0.229", features = ["derive"] }
serde_json = "=1.0.154"
tokio = { version = "=1.54.1", features = ["macros", "rt-multi-thread", "process"] }
