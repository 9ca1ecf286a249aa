[package]
name = "facilitator"
version = "0.1.0"
edition = "2021"
publish = false

[dependencies]
urlencoding = "*"
ureq = "*"
rusoto_core = { version = "*", default-features = false, features = ["rustls"] }
rusoto_sqs = { version = "*", default-features = false, features = ["rustls"] }
tokio = { version = "*", features = ["rt"] }
serde = "*"
serde_json = "*"
anyhow = "*"
log = "*"
