[package]
name = "monitor_ui"
version = "0.1.0"
edition = "2021"
publish = false

[dependencies]
chrono = "0.4"
ratatui = "0.29"
crossterm = "0.28"
strum = { version = "0.26", features = ["derive"] }
tokio = { version = "1", features = ["sync"] }
log = "0.4"
anyhow = "1"
