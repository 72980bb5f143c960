[package]
name = "habit_tracker"
version = "0.1.0"
edition = "2021"
publish = false

[dependencies]
actix-cors = "=0.7.2"
actix-web = { version = "=4.18.1", default-features = false, features = ["macros"] }
chrono = { version = "=0.4.45", features = ["serde"] }
config = { version = "=0.15.27", default-features = false, features = ["ini"] }
log = "=0.4.34"
redis = { version = "=1.8.0", features = ["tokio-comp"] }
serde = { version = "=1.0.229", features = ["derive"] }
serde_json = "=1.0.154"
simple_logger = "=5.2.0"
tokio = { version = "=1.54.1", features = ["sync"] }
uuid = { version = "=1.29.0", features = ["v4"] }
