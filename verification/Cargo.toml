[package]
name = "secure_chat"
version = "0.1.0"
edition = "2021"
publish = false

[dependencies]
cursive = "*"
redis = "*"
serde = { version = "1", features = ["derive"] }
serde_json = "1"
threadpool = "1"
time = { version = "0.3", features = ["serde"] }
uuid = { version = "1", features = ["serde"] }
