[package]
name = "shiplift"
version = "0.1.0"
edition = "2021"
publish = false

[dependencies]
serde = { version = "1", features = ["derive"] }
serde_json = "1"
url = "2"
rustls-pemfile = "1"
rustls = "0.20"
hyper = { version = "0.14", features = ["client", "http1", "tcp", "stream"] }
hyper-rustls = { version = "0.23", default-features = false, features = ["http1", "tls12"] }
hyperlocal = "0.8"
futures-util = "0.3"
