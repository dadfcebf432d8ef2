[package]
name = "ws2"
version = "0.1.0"
edition = "2021"
publish = false

[dependencies]
ws = "0.9"
url = "2"
poll-channel = "*"
