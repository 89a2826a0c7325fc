[package]
name = "rss_gobbler"
version = "0.1.0"
edition = "2021"
publish = false

[dependencies]
regex = "1"
hyper = { version = "0.14", features = ["client", "http1", "http2", "tcp"] }
hyper-tls = "0.5"
tokio = { version = "1", features = ["full"] }
futures = "0.3"
rss = "2"
clap = "2"
tracing = "0.1"
tracing-subscriber = "0.3"
