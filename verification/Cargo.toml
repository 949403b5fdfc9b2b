[package]
name = "inbound"
version = "0.1.0"
edition = "2021"
publish = false

[dependencies]
async-trait = "0.1"
futures = { version = "0.3", default-features = false, features = ["std"] }
http = "1"
http-types = { version = "2.12", default-features = false }
rustls = { version = "0.23", default-features = false, features = ["std"] }
tokio = { version = "1", features = ["rt", "sync", "time"] }
tracing = "0.1"
