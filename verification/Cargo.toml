[package]
name = "aws_profiles"
version = "0.1.0"
edition = "2021"
publish = false

[dependencies]
ini = "=2.0.0"
serde = { version = "=1.0.229", features = ["derive"] }
aws-config = "=1.12.0"
aws-sdk-sts = "=1.119.0"
