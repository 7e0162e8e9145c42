[package]
name = "upload_gateway"
version = "0.1.0"
edition = "2021"
publish = false

[dependencies]
aws-config = "*"
aws-sdk-s3 = "*"
axum = { version = "*", features = ["multipart"] }
dotenv = "*"
serde = { version = "*", features = ["derive"] }
tokio = { version = "*", features = ["full"] }
tokio-util = "*"
tower-http = { version = "*", features = ["cors"] }
tracing-subscriber = "*"
