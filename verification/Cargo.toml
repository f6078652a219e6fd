[package]
name = "teapot_scene"
version = "0.1.0"
edition = "2021"
publish = false

[dependencies]
glium = "0.34"
image = { version = "0.24", default-features = false, features = ["png"] }
winit = "0.29"
