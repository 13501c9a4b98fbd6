[package]
name = "silly_cors"
version = "0.1.0"
edition = "2021"
publish = false

[dependencies]
hyper = { version = "0.14", features = ["full"] }
hyper-tls = "0.5"
once_cell = "1"
tokio = { version = "1", features = ["full"] }
