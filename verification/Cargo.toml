[package]
name = "notes"
version = "0.1.0"
edition = "2021"
publish = false

[dependencies]
anyhow = "=1.0.104"
argon2 = { version = "=0.5.3", features = ["std"] }
axum = "=0.8.9"
axum-extra = { version = "=0.10.3", features = ["typed-header"] }
axum-cookie = "=0.3.0"
casbin = "2"
chrono = { version = "=0.4.45", features = ["serde"] }
dotenvy = "=0.15.7"
jsonwebtoken = "=9.3.1"
redis = "=0.27.6"
serde = { version = "=1.0.229", features = ["derive"] }
sqlx = { version = "=0.8.6", default-features = false, features = ["sqlite", "runtime-tokio", "chrono", "migrate", "macros"] }
sqlx-adapter = "1"
time = "=0.3.55"
tokio = { version = "=1.54.1", features = ["full"] }
utoipa = { version = "=5.5.0", features = ["chrono"] }
