[package]
name = "qr_encrypt"
version = "0.1.0"
edition = "2021"
publish = false

[dependencies]
age = "0.11"
base64 = "0.22"
secrecy = "0.8"
qrcode = "0.14"

[dev-dependencies]
serde_json = "1"
