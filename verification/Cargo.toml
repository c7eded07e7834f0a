[package]
name = "user_auth"
version = "0.1.0"
edition = "2021"
publish = false

[dependencies]
bcrypt = "0.15"
rand = "0.8"
aws-config = { version = "1", features = ["behavior-version-latest"] }
aws-sdk-dynamodb = { version = "1", features = ["behavior-version-latest"] }
lambda_http = "*"
serde = { version = "1", features = ["derive"] }
serde_json = "1"
tokio = { version = "1", features = ["macros"] }
tracing = "0.1"
tracing-subscriber = "0.3"
