[package]
name = "nss_http"
version = "0.1.0"
edition = "2021"
publish = false

[dependencies]
serde_json = "*"
libc = "*"
libnss = "*"
reqwest = { version = "*", default-features = false, features = ["blocking"] }
