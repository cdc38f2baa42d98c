[package]
name = "docfit"
version = "0.1.0"
edition = "2021"
publish = false

[dependencies]
image = { version = "*", default-features = false, features = ["jpeg", "png"] }
serde = { version = "*", features = ["derive"] }
serde_json = "*"
base64 = "*"
