[package]
name = "ublks3"
version = "0.1.0"
edition = "2021"
publish = false

[dependencies]
anyhow = "=1.0.104"
aws-config = "=0.101.0"
aws-sdk-s3 = "=0.38.0"
bytes = "=1.12.1"
libc = "=0.2.191"
libublk = "=0.1.2"
log = "=0.4.34"
serde = { version = "=1.0.229", features = ["derive"] }
serde_json = "=1.0.154"
tokio = { version = "=1.54.1", features = ["macros", "rt-multi-thread"] }
tokio-stream = "=0.1.19"
