[package]
name = "pomodoro"
version = "0.1.0"
edition = "2021"
publish = false

[dependencies]
clap = "4"
color-eyre = "0.6"
crossterm = "0.27"
ratatui = "0.26"
tokio = { version = "1", features = ["macros", "rt-multi-thread"] }
tui-input = "0.8"
