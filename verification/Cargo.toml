[package]
name = "vtn_mock"
version = "0.1.0"
edition = "2021"
publish = false

[dependencies]
axum = { version = "*", features = ["multipart"] }
chrono = "0.4"
dashmap = "6"
log = "0.4"
reqwest = { version = "0.12", features = ["json"] }
serde = { version = "1", features = ["derive"] }
shuttle-axum = "*"
shuttle-runtime = "*"
tokio = { version = "1", features = ["sync", "macros", "rt-multi-thread"] }
