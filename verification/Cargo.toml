[package]
name = "send_download"
version = "0.1.0"
edition = "2021"
publish = false

[dependencies]
base64 = "=0.23.1"
clap = "=4.6.7"
hkdf = "=0.13.0"
hmac = "=0.13.0"
openssl = "=0.10.81"
reqwest = { version = "=0.12.28", default-features = false, features = ["blocking", "rustls-tls"] }
sha2 = "=0.11.0"
