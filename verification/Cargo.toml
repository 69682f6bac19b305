[package]
name = "material_triangle"
version = "0.1.0"
edition = "2021"
publish = false

[dependencies]
bytemuck = "1"
env_logger = "0.10"
pollster = "0.2"
wgpu = "0.14"
winit = { version = "0.27", default-features = false, features = ["x11"] }
