[package]
name = "super-stt-backend-mistral"
version = "0.1.0"
edition = "2021"
publish = false

[dependencies]
base64 = "0.22"
serde_json = "1"
wit-bindgen = "*"
