[package]
name = "glitter"
version = "0.1.0"
edition = "2021"
publish = false

[dependencies]
gl = "*"
cgmath = "*"
nalgebra = "*"
image = { version = "*", default-features = false }
