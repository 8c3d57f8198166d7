[package]
name = "hhand"
version = "0.1.0"
edition = "2021"
publish = false

[dependencies]
anyhow = "1"
arboard = { version = "3", default-features = false }
crossterm = "0.28"
dirs = "*"
open = "5"
ratatui = "0.29"
rusqlite = { version = "*", features = ["bundled"] }
rust-ini = "*"
scraper = "*"
serde = { version = "1", features = ["derive"] }
serde_json = "1"
toml = "*"
