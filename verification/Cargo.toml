[package]
name = "url_shortener"
version = "0.1.0"
edition = "2021"
publish = false

[dependencies]
edjx = "=0.2.0"
rmp = "=0.8.10"
