[package]
name = "axum_jwks"
version = "0.1.0"
edition = "2021"
publish = false

[dependencies]
jsonwebtoken = "8"
serde_json = "1"
serde = { version = "1", features = ["derive"] }
axum = { version = "0.6", features = ["headers"] }
reqwest = { version = "0.11", default-features = false, features = ["json"] }
tokio = { version = "1", features = ["sync", "time"] }
tracing = "0.1"
