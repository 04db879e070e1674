[package]
name = "yaddak"
version = "0.1.0"
edition = "2021"
publish = false

[dependencies]
rust-argon2 = "=3.0.0"
sea-query = { version = "=0.32.7", features = ["with-uuid"] }
sea-query-binder = { version = "=0.7.0", features = ["sqlx-postgres", "with-uuid"] }
sqlx = { version = "=0.8.6", default-features = false, features = ["runtime-tokio", "postgres", "uuid"] }
uuid = { version = "=1.27.0", features = ["v4"] }
serde = { version = "=1.0.229", features = ["derive"] }
serde_json = "=1.0.151"
tokio = { version = "=1.53.2", features = ["rt-multi-thread", "macros", "fs", "io-util", "signal"] }
axum = "=0.8.9"
dotenv = "=0.15.0"
