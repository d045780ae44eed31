[package]
name = "crypto_toolkit"
version = "0.1.0"
edition = "2021"
publish = false

[dependencies]
aes = "0.8"
base64 = "0.22"
cbc = { version = "0.1", features = ["alloc", "block-padding"] }
md5 = "0.7"
p256 = { version = "0.13", features = ["ecdh", "pem"] }
rand = "0.8"
rsa = "0.9"
serde = { version = "1", features = ["derive"] }
sha2 = "0.10"
urlencoding = "2"
