[package]
name = "gulog"
version = "0.1.0"
edition = "2021"
publish = false

[dependencies]
sha2 = "*"
ulid = "*"
aws-sdk-s3 = "*"
tokio = { version = "*", features = ["rt-multi-thread", "macros"] }
