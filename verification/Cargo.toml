[package]
name = "stats_recorder"
version = "0.1.0"
edition = "2021"
publish = false

[dependencies]
home = "0.5"
rusqlite = "*"
serde = { version = "1", features = ["derive"] }
serde_json = "1"
