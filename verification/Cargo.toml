[package]
name = "tvconvert"
version = "0.1.0"
edition = "2021"
publish = false

[dependencies]
base64 = "0.21"
image = { version = "0.24", default-features = false, features = ["png"] }
mime_guess = "2"
serde = { version = "1", features = ["derive"] }
time = { version = "0.3", features = ["serde"] }
lazy_static = "1"
