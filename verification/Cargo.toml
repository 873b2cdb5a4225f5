[package]
name = "letter"
version = "0.1.0"
edition = "2021"
publish = false

[dependencies]
crossterm = "=0.27.0"
ratatui = "=0.23.0"
log = { version = "=0.4.34", features = ["std"] }
rusqlite = { version = "=0.29.0", features = ["bundled"] }
rustic-fuzz = "=2.0.0"
