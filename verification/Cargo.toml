[package]
name = "lambda"
version = "0.1.0"
edition = "2021"
publish = false

[dependencies]
aws-config = { version = "=1.13.0", features = ["behavior-version-latest"] }
aws-sdk-bedrockruntime = "=1.151.0"
aws-sdk-dynamodb = "=1.134.0"
aws-sdk-secretsmanager = "=1.123.0"
aws-smithy-types = "=1.9.0"
aws_lambda_events = { version = "=0.15.1", default-features = false, features = ["cloudwatch_logs"] }
axum = "=0.7.9"
base64 = "=0.22.1"
chrono = "=0.4.45"
flate2 = "=1.1.10"
futures-util = "=0.3.34"
hmac = "=0.12.1"
lambda_http = "=0.13.0"
lambda_runtime = "=0.13.0"
reqwest = { version = "=0.12.28", default-features = false, features = ["json", "rustls-tls"] }
serde = { version = "=1.0.229", features = ["derive"] }
serde_dynamo = { version = "=4.3.0", features = ["aws-sdk-dynamodb+1"] }
serde_json = { version = "=1.0.154", features = ["preserve_order"] }
sha2 = "=0.10.9"
tokio = { version = "=1.54.1", features = ["macros"] }
tower-http = { version = "=0.6.11", features = ["auth"] }
tracing = "=0.1.44"
typed-builder = "=0.20.1"
uuid = { version = "=1.29.0", features = ["v4", "serde"] }
