[package]
name = "cognito_auth"
version = "0.1.0"
edition = "2021"
publish = false

[dependencies]
jsonwebtoken = "=9.3.1"
serde = { version = "=1.0.229", features = ["derive"] }
serde_json = { version = "=1.0.154", features = ["raw_value"] }
tokio = { version = "=1.54.1", features = ["macros", "rt-multi-thread", "sync"] }
lambda_http = "=1.3.2"
aws-config = { version = "=1.13.0", features = ["behavior-version-latest"] }
aws-sdk-s3 = "=1.157.0"
aws-smithy-types = "=1.9.1"
reqwest = "=0.13.5"
