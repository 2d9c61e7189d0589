[package]
name = "chacha20stream"
version = "2.2.1"
edition = "2021"
publish = false

[dependencies]
base64 = "0.13"
getrandom = "0.2"
libc = "0.2"
openssl = "0.10"
pin-project = "1"
serde = { version = "1", features = ["derive"] }
smallvec = "1"
stackalloc = "1"
tokio = "0.2"
