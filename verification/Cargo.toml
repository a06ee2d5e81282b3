[package]
name = "post_dispatch"
version = "0.1.0"
edition = "2021"
publish = false

[dependencies]
aws-config = { version = "1", default-features = false, features = ["rt-tokio", "rustls"] }
aws-sdk-dynamodb = { version = "1", default-features = false, features = ["rt-tokio", "rustls"] }
aws-sdk-sns = { version = "1", default-features = false, features = ["rt-tokio", "rustls"] }
aws_lambda_events = { version = "=1.2.1", default-features = false, features = ["sqs"] }
chrono = "=0.4.45"
deso-sdk = "=0.1.1"
dotenv = "=0.15.0"
lambda_http = "=1.3.2"
lambda_runtime = "=1.5.0"
oauth1-header = "=0.1.0"
openai-api-rs = "=10.0.2"
regex = "=1.13.1"
reqwest = { version = "0.11", default-features = false, features = ["json", "rustls-tls"] }
serde = { version = "=1.0.229", features = ["derive"] }
serde_json = "=1.0.154"
tiktoken-rs = "=0.12.1"
tokio = { version = "=1.54.1", features = ["macros", "rt-multi-thread"] }
uuid = { version = "=1.29.0", features = ["v4"] }
xml-rs = "=0.8.29"
