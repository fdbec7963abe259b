[package]
name = "cleuly"
version = "0.1.0"
edition = "2021"
publish = false

[dependencies]
serde = { version = "*", features = ["derive"] }
serde_json = "*"
chrono = { version = "*", features = ["serde"] }
thiserror = "*"
tokio = { version = "*", features = ["full"] }
reqwest = { version = "*", features = ["json", "multipart"] }
axum = { version = "*", features = ["multipart"] }
mongodb = "*"
bson = "2"
redis = { version = "*", features = ["tokio-comp", "connection-manager"] }
futures = "*"
validator = { version = "*", features = ["derive"] }
