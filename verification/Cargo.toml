[package]
name = "dspm-collector"
version = "0.1.0"
edition = "2021"
publish = false

[dependencies]
anyhow = "1"
async-trait = "0.1"
aws-config = { version = "=1.13.0", default-features = false, features = ["rt-tokio"] }
aws-sdk-backup = { version = "=1.130.0", default-features = false, features = ["rt-tokio"] }
aws-sdk-cloudtrail = { version = "=1.128.0", default-features = false, features = ["rt-tokio"] }
aws-sdk-cloudwatchlogs = { version = "=1.160.0", default-features = false, features = ["rt-tokio"] }
aws-sdk-dynamodb = { version = "=1.134.0", default-features = false, features = ["rt-tokio"] }
aws-sdk-ecr = { version = "=1.135.0", default-features = false, features = ["rt-tokio"] }
aws-sdk-efs = { version = "=1.121.0", default-features = false, features = ["rt-tokio"] }
aws-sdk-fsx = { version = "=1.131.0", default-features = false, features = ["rt-tokio"] }
aws-sdk-kinesis = { version = "=1.128.0", default-features = false, features = ["rt-tokio"] }
aws-sdk-opensearch = { version = "=1.154.0", default-features = false, features = ["rt-tokio"] }
aws-sdk-rds = { version = "=1.157.0", default-features = false, features = ["rt-tokio"] }
aws-sdk-s3 = { version = "=1.155.0", default-features = false, features = ["rt-tokio"] }
aws-sdk-sns = { version = "=1.119.0", default-features = false, features = ["rt-tokio"] }
aws-sdk-sqs = { version = "=1.117.0", default-features = false, features = ["rt-tokio"] }
aws-sdk-sts = { version = "=1.122.0", default-features = false, features = ["rt-tokio"] }
aws-types = "=1.7.0"
clap = { version = "=4.6.7", features = ["derive"] }
futures = "0.3"
reqwest = { version = "=0.12.28", default-features = false, features = ["json"] }
serde = { version = "1", features = ["derive"] }
serde_json = "=1.0.154"
tokio = { version = "=1.54.1", features = ["macros", "rt-multi-thread", "time", "fs"] }
tracing-subscriber = { version = "0.3", features = ["env-filter"] }
