[package]
name = "fisher"
version = "0.1.0"
edition = "2021"
publish = false

[dependencies]
serde_json = "1"
hmac = "0.12"
sha1 = "0.10"
url = "2"
tiny_http = "0.12"
tempdir = "0.3"
