[package]
name = "multi_sgb_async"
version = "0.1.0"
edition = "2021"
publish = false

[dependencies]
binext = "*"
lazy_static = "1"
libftd2xx = "*"
serde = { version = "1", features = ["derive"] }
serde_json = "1"
tokio = { version = "1", features = ["full"] }
tokio-stream = "0.1"
tokio-util = { version = "0.7", features = ["rt"] }
