[package]
name = "idle_game"
version = "0.1.0"
edition = "2021"
publish = false

[dependencies]
ratatui = "0.29"
crossterm = "0.28"
crossbeam-channel = "0.5"
serde = { version = "1", features = ["derive"] }
serde_json = "1"
serde-big-array = "0.5"
rand = "0.9"
strum_macros = "0.26"
