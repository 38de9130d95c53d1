[package]
name = "news_gateway"
version = "0.1.0"
edition = "2021"
publish = false

[dependencies]
actix-cors = "=0.7.2"
actix-web = "=4.18.1"
chrono = "=0.4.45"
dashmap = "=6.2.1"
dotenv = "=0.15.0"
env_logger = "=0.11.11"
log = "=0.4.34"
reqwest = { version = "=0.12.28", features = ["json"] }
serde = { version = "=1.0.229", features = ["derive"] }
serde_json = { version = "=1.0.154", features = ["float_roundtrip"] }
