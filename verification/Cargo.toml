[package]
name = "raytrace"
version = "0.1.0"
edition = "2021"
publish = false

[dependencies]
glam = "*"
bytemuck = "*"
gltf = { version = "*", features = ["KHR_materials_emissive_strength"] }
wgpu = "*"
winit = "*"
pollster = "*"
anyhow = "*"
env_logger = "*"
log = "*"
