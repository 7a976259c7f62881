[package]
name = "s3_manager"
version = "0.1.0"
edition = "2021"
publish = false

[dependencies]
aws-config = { version = "=1.11.0", features = ["behavior-version-latest"] }
aws-sdk-s3 = "=1.152.0"
reqwest = "=0.12.28"
serde = { version = "=1.0.229", features = ["derive"] }
