[package]
name = "smolpaste"
version = "0.1.0"
edition = "2021"
publish = false

[dependencies]
uuid = { version = "*", features = ["v4"] }
chrono = "*"
axum = { version = "*", features = ["multipart"] }
tokio = { version = "*", features = ["full"] }
sqlx = { version = "*", features = ["sqlite", "runtime-tokio"] }
tower-http = { version = "*", features = ["fs"] }
futures = "*"
tokio-util = { version = "*", features = ["io"] }
serde = { version = "*", features = ["derive"] }
anyhow = "*"
tracing = "*"
tracing-subscriber = "*"
