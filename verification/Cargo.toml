[package]
name = "memefinder"
version = "0.1.0"
edition = "2021"
publish = false

[dependencies]
actix-cors = "0.6"
actix-multipart = "0.4"
actix-web = "4"
base64 = "0.13"
base64-serde = "0.6"
env_logger = "0.9"
envconfig = "0.10"
futures-util = "0.3"
image = "0.24"
log = "0.4"
meilisearch-sdk = "0.17"
once_cell = "1"
serde = { version = "1", features = ["derive"] }
uuid = { version = "1", features = ["v4", "serde"] }
webp = "0.2"
