[package]
name = "drone_telemetry"
version = "0.1.0"
edition = "2021"
publish = false

[dependencies]
serde_json = "1"
serde = { version = "1", features = ["derive"] }
lapin = "2"
mongodb = "3"
futures-lite = "2"
log = "0.4"
env_logger = "0.11"
dotenvy = "0.15"
actix-web = { version = "4", default-features = false, features = ["macros"] }
