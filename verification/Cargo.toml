[package]
name = "tuxedo"
version = "0.1.0"
edition = "2021"
publish = false

[dependencies]
anyhow = "1"
chrono = "0.4"
crossterm = "0.28"
getrandom = "0.2"
ratatui = "0.29"
