[package]
name = "sts_session"
version = "0.1.0"
edition = "2021"
publish = false

[dependencies]
atty = "*"
aws-config = "*"
aws-sdk-sts = "*"
aws-types = "*"
rpassword = "*"
tokio = { version = "*", features = ["macros", "rt-multi-thread"] }
tracing-subscriber = "*"
