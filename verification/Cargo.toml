[package]
name = "wasi_http"
version = "0.1.0"
edition = "2021"
publish = false

[dependencies]
bytes = "*"
extism-pdk = "*"
http = "*"
serde = "*"
serde_json = "*"
url = "*"
