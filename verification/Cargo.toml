[package]
name = "dart_launch"
version = "0.1.0"
edition = "2021"
publish = false

[dependencies]
anyhow = "1"
lapce-plugin = "*"
serde_json = "1"
url = "2"
