[package]
name = "tetris_keys"
version = "0.1.0"
edition = "2021"
publish = false

[dependencies]
serde_json = "1"
directories-next = "2"
crossterm = "*"
clap = { version = "4", features = ["derive"] }
rusqlite = "*"
