[package]
name = "dt_wry"
version = "0.1.0"
edition = "2021"
publish = false

[dependencies]
serde_json = "1"
image = "*"
tao = "*"
wry = "*"
