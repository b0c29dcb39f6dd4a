[package]
name = "img_compressor"
version = "0.1.0"
edition = "2021"
publish = false

[dependencies]
dicom-object = "=0.10.0"
dicom-pixeldata = { version = "=0.10.0", features = ["image"] }
image = "=0.25.10"
aws-config = "*"
aws-sdk-s3 = "*"
lambda_runtime = "*"
tokio = { version = "1", features = ["macros", "rt", "sync"] }
serde = { version = "1", features = ["derive"] }
tracing = "*"
tracing-subscriber = "*"

[dev-dependencies]
dicom-core = "=0.10.0"
