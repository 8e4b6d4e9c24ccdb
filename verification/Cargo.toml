[package]
name = "dropbox_sdk"
version = "0.1.0"
edition = "2021"
publish = false

[dependencies]
base64 = "*"
regex = "*"
ureq = { version = "*", default-features = false }
