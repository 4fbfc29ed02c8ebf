[package]
name = "min_gl"
version = "0.1.0"
edition = "2021"
publish = false

[dependencies]
glfw = { version = "0.51", default-features = false }
min_timer = "*"
