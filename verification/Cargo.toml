[package]
name = "image_resizing_lambda"
version = "0.1.0"
edition = "2021"
publish = false

[dependencies]
image = { version = "=0.25.10", default-features = false, features = ["bmp", "dds", "exr", "ff", "gif", "hdr", "ico", "jpeg", "png", "pnm", "qoi", "rayon", "tga", "tiff", "webp"] }
urlencoding = "=2.1.3"
chrono = "=0.4.45"
thiserror = "=2.0.21"
aws-config = { version = "=1.13.0", features = ["behavior-version-latest"] }
aws-sdk-s3 = "=1.157.0"
aws-sdk-dynamodb = "=1.136.0"
aws_lambda_events = { version = "=1.2.1", default-features = false, features = ["s3"] }
lambda_runtime = "=1.5.0"
tokio = { version = "=1.54.1", features = ["macros", "rt-multi-thread"] }
tracing = "=0.1.44"
tracing-subscriber = { version = "=0.3.23", features = ["json", "env-filter"] }
