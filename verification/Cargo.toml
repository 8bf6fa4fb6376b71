[package]
name = "nucleo_ui"
version = "0.1.0"
edition = "2021"
publish = false

[dependencies]
nucleo = "*"
clap = { version = "*", features = ["derive"] }
color-eyre = "*"
crossterm = "*"
ratatui = "*"
walkdir = "*"
