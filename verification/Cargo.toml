[package]
name = "textshare"
version = "0.1.0"
edition = "2021"
publish = false

[dependencies]
actix-web = "4"
askama = "*"
chrono = "0.4"
once_cell = "1"
serde = { version = "1", features = ["derive"] }
serde_json = "1"
