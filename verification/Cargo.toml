[package]
name = "api"
version = "0.1.0"
edition = "2021"
publish = false

[dependencies]
regex = "=1.13.1"
serde = { version = "=1.0.229", features = ["derive"] }
serde_json = "=1.0.154"
serde_with = "=3.24.0"
anyhow = "=1.0.104"
thiserror = "=1.0.69"
axum = { version = "=0.7.9", features = ["ws"] }
axum-extra = { version = "=0.9.6", features = ["typed-header"] }
tokio = { version = "=1.54.1", features = ["full"] }
tokio-util = "=0.7.20"
tokio-stream = "=0.1.19"
tower-http = { version = "=0.5.2", features = ["cors"] }
reqwest = { version = "=0.12.28", default-features = false, features = ["rustls-tls", "stream", "json"] }
jsonwebtoken = "=9.3.1"
uuid = { version = "=1.29.0", features = ["v4"] }
chrono = "=0.4.45"
tracing = "=0.1.44"
tracing-subscriber = "=0.3.23"
futures-util = { version = "=0.3.34", features = ["sink"] }
futures-core = "=0.3.34"
async-stream = "=0.3.6"
bytes = "=1.12.1"
toml = "=0.8.23"
tempfile = "=3.27.0"
aws-config = "1"
aws-sdk-s3 = "1"
notion-client = "*"
