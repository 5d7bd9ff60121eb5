[package]
name = "mdviewer"
version = "0.1.0"
edition = "2021"
publish = false

[dependencies]
serde = { version = "1", features = ["derive"] }
serde_json = "1"
tao = "*"
wry = "*"
rfd = { version = "*", default-features = false, features = ["gtk3"] }
