[package]
name = "keybubbles"
version = "0.1.0"
edition = "2021"
publish = false

[dependencies]
rand = "0.9"
ratatui = "*"
crossterm = "*"
tokio = { version = "1", features = ["macros", "rt-multi-thread", "sync", "time"] }
cpal = "*"
