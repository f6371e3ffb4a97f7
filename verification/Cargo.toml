[package]
name = "lesson5-camera"
version = "0.1.0"
edition = "2021"
publish = false

[dependencies]
bytemuck = { version = "=1.25.2", features = ["derive"] }
cgmath = "=0.18.0"
env_logger = "=0.10.2"
image = { version = "=0.24.9", default-features = false, features = ["png"] }
log = "=0.4.35"
wgpu = "=0.16.3"
winit = "=0.28.7"
