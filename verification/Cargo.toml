[package]
name = "qr"
version = "0.1.0"
edition = "2021"
publish = false

[dependencies]
line_drawing = "*"
image = { version = "*", default-features = false, features = ["png"] }

[dev-dependencies]
rand = "*"
