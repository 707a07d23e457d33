[package]
name = "game_api"
version = "0.1.0"
edition = "2021"
publish = false

[dependencies]
fancy-regex = "*"
serde = { version = "1", features = ["derive"] }
serde_json = "1"
thiserror = "*"
