[package]
name = "h5_transport"
version = "0.1.0"
edition = "2021"
publish = false

[dependencies]
bytes = "*"
futures = "*"
tokio-serial = "*"
tokio-util = { version = "*", features = ["codec"] }
