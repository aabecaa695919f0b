[package]
name = "clientserver"
version = "0.1.0"
edition = "2021"
publish = false

[dependencies]
rustls-pemfile = "1"
rustls = "0.20"
tokio = { version = "1", features = ["full"] }
tonic = { version = "0.10", features = ["tls"] }
prost = "0.12"
