[package]
name = "news_letter"
version = "0.1.0"
edition = "2021"
publish = false

[dependencies]
validator = "=0.21.0"
actix-web = "=4.18.1"
actix-web-flash-messages = { version = "=0.5.1", features = ["cookies"] }
sqlx = { version = "=0.8.6", default-features = false, features = ["runtime-tokio", "postgres", "uuid", "derive"] }
tokio = { version = "=1.54.1", features = ["macros", "rt-multi-thread"] }
uuid = { version = "=1.29.1", features = ["v4"] }
serde = { version = "=1.0.229", features = ["derive"] }
anyhow = "=1.0.104"
tracing = { version = "=0.1.44", features = ["log"] }
env_logger = "=0.11.11"
