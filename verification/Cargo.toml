[package]
name = "chiptui"
version = "0.1.0"
edition = "2021"
publish = false

[dependencies]
ratatui = "*"
ratatui-themes = "*"
time = "*"
