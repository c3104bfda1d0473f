[package]
name = "rust_backend"
version = "0.1.0"
edition = "2021"
publish = false

[dependencies]
actix-cors = "0.7"
actix-web = "4"
chrono = { version = "0.4", features = ["serde"] }
env_logger = "0.11"
serde = { version = "1", features = ["derive"] }
