[package]
name = "ytune"
version = "0.1.0"
edition = "2021"
publish = false

[dependencies]
serde_json = "1"
uuid = { version = "1", features = ["v4"] }
image = "0.24"
wry = "0.24"
