[package]
name = "zero"
version = "0.1.0"
edition = "2021"
publish = false

[dependencies]
regex = "1"
uuid = { version = "1", features = ["v4"] }
serde = { version = "1", features = ["derive"] }
serde_json = "1"
serde_yaml = "0.9"
tokio = { version = "1", features = ["rt-multi-thread", "macros", "sync", "time"] }
crossterm = "0.28"
ratatui = "0.29"
anyhow = "1"
log = "0.4"
env_logger = "0.11"
async-trait = "0.1"
thiserror = "2"
