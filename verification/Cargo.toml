[package]
name = "chronicle_auth"
version = "0.1.0"
edition = "2021"
publish = false

[dependencies]
jsonwebtoken = "8"
percent-encoding = "2"
chrono = "0.4"
serde = { version = "1", features = ["derive"] }
serde_json = "1"
axum = "0.5"
headers = "0.3"
tokio = { version = "1", features = ["full"] }
clap = { version = "3", features = ["derive"] }
once_cell = "1"
thiserror = "1"
