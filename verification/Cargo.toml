[package]
name = "ytdl"
version = "0.1.0"
edition = "2021"
publish = false

[dependencies]
anyhow = "*"
arboard = "*"
chrono = "*"
clap = { version = "*", features = ["derive", "env"] }
colored = "*"
crossterm = "*"
directories = "*"
futures = "*"
indicatif = "*"
notify-rust = "*"
ratatui = "*"
serde = { version = "*", features = ["derive"] }
serde_json = "*"
thiserror = "*"
tokio = { version = "*", features = ["full"] }
toml = "*"
tracing = "*"
tracing-appender = "*"
tracing-subscriber = { version = "*", features = ["env-filter", "json"] }
