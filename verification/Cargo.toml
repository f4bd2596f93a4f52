[package]
name = "tls_listener"
version = "0.1.0"
edition = "2021"
publish = false

[dependencies]
rustls-pemfile = "=1.0.4"
tokio = { version = "=1.54.1", features = ["net"] }
tokio-rustls = "=0.23.4"

[dev-dependencies]
rcgen = "0.13"
