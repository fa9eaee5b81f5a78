[package]
name = "uisp_login"
version = "0.1.0"
edition = "2021"
publish = false

[dependencies]
actix-web = "4"
dotenvy = "0.15"
env_logger = "0.11"
listenfd = "1"
log = "0.4"
r2d2 = "0.8"
redis = { version = "0.25", features = ["r2d2"] }
reqwest = { version = "0.12", features = ["json"] }
serde = { version = "1", features = ["derive"] }
serde_json = "1"
