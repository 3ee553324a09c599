[package]
name = "hyper_proxy"
version = "0.1.0"
edition = "2021"
publish = false

[dependencies]
headers = "*"
http = "*"
hyper = "*"
hyper-util = { version = "*", features = ["client-legacy", "tokio"] }
tokio = { version = "*", features = ["io-util"] }
tower-service = "*"
