[package]
name = "service_control"
version = "0.1.0"
edition = "2021"
publish = false

[dependencies]
futures = { version = "0.3", features = ["compat"] }
snafu = "0.6"
windows-service = "0.3"
