[package]
name = "proxy"
version = "0.1.0"
edition = "2021"
publish = false

[dependencies]
percent-encoding = "=2.3.2"
anyhow = "*"
bytes = "*"
http-body-util = "*"
hyper = { version = "*", features = ["server", "http1"] }
hyper-util = { version = "*", features = ["tokio"] }
ipnetwork = "=0.21.1"
sqlx = { version = "=0.9.0", default-features = false, features = ["postgres", "runtime-tokio", "ipnetwork"] }
tokio = { version = "*", features = ["rt-multi-thread", "net", "macros"] }
aws-config = "*"
aws-sdk-s3 = "*"
