[package]
name = "vmod_cloudbucket"
version = "0.1.0"
edition = "2021"
publish = false

[dependencies]
anyhow = "1"
aws-config = "1"
aws-sdk-s3 = "1"
bytes = "1"
futures = "0.3"
http-body-util = "0.1"
hyper = "1"
reqwest = { version = "0.12", features = ["brotli", "deflate", "gzip", "stream"] }
tokio = { version = "1", features = ["full"] }
varnish = "0.0.19"
varnish-sys = "0.0.19"
