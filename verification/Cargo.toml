[package]
name = "nonefly"
version = "0.1.0"
edition = "2021"
publish = false

[dependencies]
serde_json = { version = "1", features = ["raw_value"] }
serde = { version = "1", features = ["derive"] }
anyhow = "1"
tokio = { version = "1", features = ["rt-multi-thread", "macros"] }
axum = "0.6"
reqwest = { version = "0.11", default-features = false, features = ["json"] }
sqlx = { version = "0.7", default-features = false, features = ["runtime-tokio", "sqlite"] }
