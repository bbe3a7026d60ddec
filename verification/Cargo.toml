[package]
name = "optitask"
version = "0.1.0"
edition = "2021"
publish = false

[dependencies]
actix-web = { version = "*", default-features = false, features = ["macros"] }
chrono = { version = "=0.4.45", features = ["serde"] }
dotenvy = "*"
env_logger = "*"
futures-util = "*"
log = "*"
serde = { version = "*", features = ["derive"] }
serde_json = "*"
uuid = { version = "*", features = ["v4", "serde"] }
