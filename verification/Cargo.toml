[package]
name = "audio_manager"
version = "0.1.0"
edition = "2021"
publish = false

[dependencies]
anyhow = "1"
chrono = "0.4"
clap = { version = "4", features = ["derive"] }
crossterm = "0.27"
flate2 = "1"
ratatui = "0.26"
tar = "0.4"
