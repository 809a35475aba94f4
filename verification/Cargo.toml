[package]
name = "auth_service"
version = "0.1.0"
edition = "2021"
publish = false

[dependencies]
argon2 = "=0.5.3"
jsonwebtoken = { version = "=11.1.0", default-features = false, features = ["rust_crypto"] }
uuid = { version = "=1.27.0", features = ["v4"] }
rand = "=0.10.3"
chrono = { version = "=0.4.45", default-features = false, features = ["clock"] }
serde = { version = "=1.0.229", features = ["derive"] }
serde_json = "=1.0.151"
axum = "=0.8.9"
axum-extra = { version = "=0.12.6", features = ["cookie"] }
tokio = { version = "=1.53.2", features = ["macros", "rt-multi-thread", "net", "sync"] }
redis = "=1.7.1"
sqlx = { version = "=0.9.0", default-features = false, features = ["runtime-tokio", "postgres"] }
dotenv = "=0.15.0"
