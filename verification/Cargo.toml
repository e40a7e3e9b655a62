[package]
name = "mini_renderer"
version = "0.1.0"
edition = "2021"
publish = false

[dependencies]
image = "*"
wavefront_obj = "*"
