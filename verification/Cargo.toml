[package]
name = "user_service"
version = "0.1.0"
edition = "2021"
publish = false

[dependencies]
actix-web = "4"
confik = "*"
dotenvy = "0.15"
env_logger = "0.11"
fred = "10"
serde = { version = "1", features = ["derive"] }
sqlx = { version = "0.8", default-features = false, features = ["runtime-tokio", "sqlite"] }
