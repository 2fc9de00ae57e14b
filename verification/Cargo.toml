[package]
name = "server_launcher"
version = "0.1.0"
edition = "2021"
publish = false

[dependencies]
crossterm = "0.27"
ratatui = "0.24"
serde = { version = "1", features = ["derive"] }
serde_json = "1"
