[package]
name = "mirage"
version = "0.1.0"
edition = "2021"
publish = false

[dependencies]
ratatui = "0.26"
crossterm = "0.27"
cpal = "0.15"
crossbeam-channel = "0.5"
notify = "6"
realfft = "3"
serde = { version = "1", features = ["derive"] }
toml = "0.8"
