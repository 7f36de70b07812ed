[package]
name = "scene_renderer"
version = "0.1.0"
edition = "2021"
publish = false

[dependencies]
anyhow = "1.0"
bytemuck = { version = "1.4", features = ["derive"] }
cfg-if = "1"
cgmath = "0.18"
env_logger = "0.9"
image = { version = "0.24", default-features = false, features = ["png", "jpeg"] }
log = "0.4"
tobj = { version = "3.2", features = ["async"] }
wgpu = "0.14"
winit = "0.27"
