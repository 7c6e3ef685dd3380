[package]
name = "hockey_app"
version = "0.1.0"
edition = "2021"
publish = false

[dependencies]
rand = "=0.8.8"
http-client = "=6.5.3"
futures = "=0.3.34"
serde_json = "*"
