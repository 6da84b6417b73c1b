[package]
name = "ltui"
version = "0.1.0"
edition = "2021"
publish = false

[dependencies]
anyhow = "=1.0.104"
chrono = { version = "=0.4.45", features = ["serde"] }
clap = { version = "=4.6.7", features = ["derive", "env"] }
crossterm = "=0.28.1"
dirs = "=5.0.1"
ratatui = "=0.29.0"
reqwest = { version = "=0.12.28", default-features = false, features = ["json", "rustls-tls"] }
serde = { version = "=1.0.229", features = ["derive"] }
serde_json = "=1.0.154"
tokio = { version = "=1.54.1", features = ["full"] }
toml = "=0.8.23"
