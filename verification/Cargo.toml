[package]
name = "swim_idle"
version = "0.1.0"
edition = "2021"
publish = false

[dependencies]
rand = "0.9"
crossterm = "0.28"
miette = "7"
serde = { version = "1", features = ["derive"] }
serde_json = "1"
terminal_size = "0.4"
