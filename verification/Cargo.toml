[package]
name = "sms_db"
version = "0.1.0"
edition = "2021"
publish = false

[dependencies]
anyhow = "*"
axum = "*"
chrono = "*"
listenfd = "*"
once_cell = "*"
serde = { version = "*", features = ["derive"] }
serde_json = "*"
surrealdb = "*"
surrealdb-types = "*"
thiserror = "*"
tokio = { version = "*", features = ["macros", "rt-multi-thread", "net"] }
tracing = "*"
tracing-subscriber = { version = "*", features = ["env-filter"] }
