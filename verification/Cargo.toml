[package]
name = "armazem"
version = "0.1.0"
edition = "2021"
publish = false

[dependencies]
anyhow = "=1.0.104"
axum = "=0.8.9"
flate2 = "=1.1.10"
hyper-util = { version = "=0.1.21", features = ["tokio", "server-auto", "server-graceful"] }
s3s = "=0.11.1"
s3s-fs = "=0.11.1"
tar = "=0.4.46"
tokio = { version = "=1.54.1", features = ["full"] }
tokio-util = "=0.7.20"
tracing = "=0.1.44"
tracing-subscriber = { version = "=0.3.23", features = ["env-filter"] }
ureq = { version = "=2.12.1", default-features = false }
