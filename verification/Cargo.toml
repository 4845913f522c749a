[package]
name = "caper"
version = "0.1.0"
edition = "2021"
publish = false

[dependencies]
fps_counter = "*"
gif = "*"
image = { version = "*", default-features = false, features = ["png"] }
