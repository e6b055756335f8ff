[package]
name = "soundcloud_client"
version = "0.1.0"
edition = "2021"
publish = false

[dependencies]
url = "2"
serde = { version = "1", features = ["derive"] }
serde_json = "1"
reqwest = { version = "0.12", default-features = false, features = ["rustls-tls", "stream"] }
tokio = { version = "1", features = ["sync", "rt", "macros"] }
tokio-stream = { version = "0.1", features = ["sync"] }
futures = "0.3"
async-stream = "0.3"
bytes = "1"
http-body = "1"
axum = { version = "0.8", default-features = false }
aws-sdk-s3 = { version = "1", default-features = false }
thiserror = "2"
log = "0.4"
