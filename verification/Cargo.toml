[package]
name = "monocoque-zmtp"
version = "0.1.0"
edition = "2021"
publish = false

[dependencies]
bytes = "=1.12.1"
chacha20poly1305 = "=0.10.1"
compio = { version = "=0.19.2", features = ["io", "time"] }
futures = "=0.3.34"
rand = "=0.8.8"
thiserror = "=1.0.69"
tracing = "0.1"
x25519-dalek = { version = "=2.0.1", features = ["static_secrets"] }
