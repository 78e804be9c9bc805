[package]
name = "history"
version = "0.1.0"
edition = "2021"
publish = false

[dependencies]
askama = "0.12"
axum = { version = "0.6", features = ["multipart"] }
axum-login = "0.5"
axum_typed_multipart = "0.9"
chrono = "0.4"
rand = "0.8"
serde = { version = "1", features = ["derive"] }
sqlx = { version = "0.6", features = ["runtime-tokio-rustls", "sqlite"] }
tokio = { version = "1", features = ["full"] }
tower-http = { version = "0.4", features = ["fs", "limit"] }
