[package]
name = "log_viewer"
version = "0.1.0"
edition = "2021"
publish = false

[dependencies]
rust-fuzzy-search = "*"
ratatui = "0.29"
crossterm = "0.28"
color-eyre = "0.6"
strip-ansi-escapes = "0.2"
