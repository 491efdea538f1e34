[package]
name = "anime_api"
version = "0.1.0"
edition = "2021"
publish = false

[dependencies]
actix-cors = "0.7"
actix-files = "0.6"
actix-multipart = "0.6"
actix-web = "4"
bcrypt = "0.15"
chrono = "0.4"
dotenvy = "0.15"
futures = "0.3"
jsonwebtoken = "9"
log = "0.4"
redis = { version = "0.25", features = ["tokio-comp"] }
sanitize-filename = "0.5"
serde = { version = "1", features = ["derive"] }
serde_json = "1"
sqlx = { version = "0.7", default-features = false, features = ["runtime-tokio", "any", "sqlite", "postgres", "macros"] }
sys-info = "0.9"
tokio = { version = "1", features = ["fs", "io-util", "rt", "time"] }
tracing = "0.1"
tracing-appender = "0.2"
tracing-subscriber = "0.3"
uuid = { version = "1", features = ["v4"] }
