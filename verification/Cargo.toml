[package]
name = "dothoard"
version = "0.1.0"
edition = "2021"
publish = false

[dependencies]
unicode-width = "0.2"
chrono = "0.4"
crossterm = "0.28"
ratatui = "0.29"
serde = { version = "1", features = ["derive"] }
toml = "0.8"
tempfile = "3"
