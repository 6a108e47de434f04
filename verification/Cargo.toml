[package]
name = "seeable"
version = "0.1.0"
edition = "2021"
publish = false

[dependencies]
nanoid = "0.4"
cookie = { version = "0.18", features = ["signed", "key-expansion"] }
axum = "0.7"
axum-extra = { version = "0.9", features = ["cookie-signed"] }
axum-htmx = "0.5"
askama = "0.12"
http = "1"
sqlx = { version = "0.7", default-features = false, features = ["runtime-tokio", "tls-rustls", "postgres", "migrate"] }
sqlxmq = { version = "0.5", default-features = false, features = ["runtime-tokio-rustls"] }
tokio = { version = "1", features = ["full"] }
tower-http = { version = "0.5", features = ["fs", "trace"] }
tower-request-id = "0.3"
tracing = "0.1"
tracing-subscriber = "0.3"
serde = { version = "1", features = ["derive"] }
serde_json = "1"
snafu = "0.8"
dotenvy = "0.15"
