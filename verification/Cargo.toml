[package]
name = "ferrosonic"
version = "0.1.0"
edition = "2021"
publish = false

[dependencies]
dirs = "6"
futures = "0.3"
libc = "0.2"
md5 = "0.7"
reqwest = { version = "0.12", default-features = false, features = ["rustls-tls", "stream"] }
tempfile = "3"
thiserror = "2"
tokio = { version = "1", features = ["rt", "time"] }
tracing = "0.1"
