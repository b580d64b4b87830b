[package]
name = "account_api"
version = "0.1.0"
edition = "2021"
publish = false

[dependencies]
axum = { version = "*", default-features = false, features = ["json"] }
chrono = { version = "*", default-features = false, features = ["clock", "serde"] }
serde = { version = "*", features = ["derive"] }
serde_json = "*"
