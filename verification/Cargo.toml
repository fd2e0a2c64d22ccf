[package]
name = "rust-lambda-image-uploader"
version = "0.1.0"
edition = "2021"
publish = false

[dependencies]
image = { version = "=0.25.10", default-features = false, features = ["jpeg", "png", "webp"] }
aws-config = { version = "=1.12.0", features = ["behavior-version-latest"] }
aws-sdk-s3 = { version = "=1.152.0", features = ["behavior-version-latest"] }
# aws-config 1.12 does not compile against aws-types 1.7, which cargo would
# pick by itself; the configuration type is taken from 1.6.
aws-types = { version = "~1.6" }
lambda_runtime = { version = "=1.5.0" }
serde = { version = "=1.0.229", features = ["derive"] }
tokio = { version = "=1.54.1", features = ["macros", "rt-multi-thread"] }
