[package]
name = "shader_viewer"
version = "0.1.0"
edition = "2021"
publish = false

[dependencies]
gl = "*"
glfw = "*"
notify = "*"
