[package]
name = "decay"
version = "0.1.0"
edition = "2021"
publish = false

[dependencies]
actix-web = "4"
aws-config = { version = "1", features = ["behavior-version-latest"] }
aws-credential-types = "1"
aws-sdk-s3 = { version = "1", features = ["behavior-version-latest"] }
bytes = "1"
clap = { version = "4", features = ["derive"] }
dotenv = "0.15"
futures = "0.3"
opentelemetry = "*"
opentelemetry-otlp = { version = "*", features = ["grpc-tonic", "metrics", "trace"] }
opentelemetry_sdk = { version = "*", features = ["rt-tokio"] }
opentelemetry-semantic-conventions = "*"
secrecy = "0.10"
serde = { version = "1", features = ["derive"] }
subtle = "2"
sysinfo = "*"
tokio = { version = "1", features = ["full"] }
tokio-util = { version = "0.7", features = ["io"] }
tracing = "0.1"
tracing-actix-web = "*"
tracing-appender = "0.2"
tracing-bunyan-formatter = "0.3"
tracing-log = "0.2"
tracing-opentelemetry = "*"
tracing-subscriber = { version = "0.3", features = ["env-filter", "registry"] }
