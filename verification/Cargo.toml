[package]
name = "render_core"
version = "0.1.0"
edition = "2021"
publish = false

[dependencies]
egui = "=0.13.1"
egui_glfw_gl = "=0.13.1"
gl = "=0.14.0"
glam = "=0.20.5"
glfw = "=0.41.0"
image = { version = "=0.24.9", default-features = false, features = ["png"] }
tobj = "=3.2.5"
