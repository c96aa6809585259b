[package]
name = "ferrosonic"
version = "0.1.0"
edition = "2021"
publish = false

[dependencies]
rand = "0.8"
url = "2"
mpris-server = "0.8"
notify-rust = "4"
tokio = { version = "1", features = ["sync", "rt", "macros"] }
ratatui = "0.29"
crossterm = "0.28"
vt100 = "0.15"
strum = "0.26"
strum_macros = "0.26"
