[package]
name = "petite_http"
version = "0.1.0"
edition = "2021"
publish = false

[dependencies]
url = "*"
url-escape = "*"
tiny_http = "*"
