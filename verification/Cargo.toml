[package]
name = "chatdraft"
version = "0.1.0"
edition = "2021"
publish = false

[dependencies]
grammers-session = "=0.7.0"
grammers-tl-types = "=0.8.0"
mime_guess = "=2.0.5"
web-time = "=1.1.0"
