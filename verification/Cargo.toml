[package]
name = "admission"
version = "0.1.0"
edition = "2021"
publish = false

[dependencies]
s2n-tls-sys = { version = "=0.3.45", features = ["quic"] }
