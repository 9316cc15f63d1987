[package]
name = "gpu_scene"
version = "0.1.0"
edition = "2021"
publish = false

[dependencies]
wgpu = { version = "=30.0.1", features = ["noop"] }
winit = "=0.30.13"
glam = "=0.34.2"
bytemuck = { version = "=1.25.2", features = ["derive"] }
image = { version = "=0.25.10", default-features = false, features = ["png", "jpeg"] }
