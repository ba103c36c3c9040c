[package]
name = "didcomm-rs"
version = "0.1.0"
edition = "2021"
publish = false

[dependencies]
aes-kw = { version = "=0.2.1", features = ["alloc"] }
base64-url = "=4.0.1"
chacha20poly1305 = "=0.10.1"
getrandom = "=0.2.17"
p256 = "=0.13.2"
serde = { version = "=1.0.229", features = ["derive"] }
serde_json = "=1.0.154"
