[package]
name = "imagebed"
version = "0.1.0"
edition = "2021"
publish = false

[dependencies]
sha256 = "*"
uuid = { version = "*", features = ["v4"] }
mime_guess = "*"
base64 = "*"
serde = { version = "*", features = ["derive"] }
serde_json = "*"
axum = { version = "*", features = ["multipart"] }
tokio = { version = "*", features = ["rt-multi-thread", "macros", "net", "sync"] }
aws-config = "*"
aws-sdk-s3 = "*"
aws-credential-types = "*"
