[package]
name = "wars"
version = "0.1.0"
edition = "2021"
publish = false

[dependencies]
rand = "=0.8.8"
glfw = { version = "=0.55.0", default-features = false }
