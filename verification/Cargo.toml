[package]
name = "shader_toy"
version = "0.1.0"
edition = "2021"
publish = false

[dependencies]
bytemuck = { version = "1", features = ["derive"] }
cgmath = "0.18"
instant = "0.1"
notify = "*"
pollster = "*"
wgpu = "23"
winit = "0.30"
