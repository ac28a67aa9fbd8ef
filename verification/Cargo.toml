[package]
name = "stargate"
version = "0.1.0"
edition = "2021"
publish = false

[dependencies]
anyhow = "=1.0.104"
axum = { version = "=0.8.9", default-features = false, features = ["http1", "tokio"] }
bytes = "=1.12.1"
h3 = "=0.0.8"
h3-quinn = "=0.0.10"
hickory-resolver = { version = "=0.24.4", default-features = false, features = ["tokio-runtime", "system-config"] }
http = "=1.5.0"
opentelemetry = { version = "=0.31.0", default-features = false, features = ["trace"] }
prometheus = { version = "=0.13.4", default-features = false }
quinn = { version = "=0.11.12", default-features = false, features = ["runtime-tokio", "rustls-aws-lc-rs"] }
rand = "=0.9.5"
rcgen = { version = "=0.13.2", default-features = false, features = ["pem", "aws_lc_rs"] }
rustls = { version = "=0.23.46", default-features = false, features = ["aws_lc_rs", "std", "tls12", "logging"] }
rustls-pemfile = "=2.2.0"
serde = { version = "=1.0.229", features = ["derive"] }
serde_json = "=1.0.154"
tokio = { version = "=1.54.1", features = ["rt-multi-thread", "macros", "net", "sync", "time", "fs", "io-util"] }
tokio-util = { version = "=0.7.20", features = ["rt"] }
tracing = "=0.1.44"
tracing-opentelemetry = { version = "=0.32.1", default-features = false }
url = "=2.5.8"
xxhash-rust = { version = "0.8", default-features = false, features = ["xxh3"] }
