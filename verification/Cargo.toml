[package]
name = "backend"
version = "0.1.0"
edition = "2021"
publish = false

[dependencies]
chrono = "0.4"
actix-web = "4"
actix-cors = "0.7"
env_logger = "0.11"
serde = { version = "1", features = ["derive"] }
serde_json = "1"
