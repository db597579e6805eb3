[package]
name = "quadpan"
version = "0.1.0"
edition = "2021"
publish = false

[dependencies]
wgpu = { version = "=0.17.2", default-features = false, features = ["wgsl"] }
winit = { version = "=0.28.7", default-features = false, features = ["x11"] }
env_logger = { version = "0.10", default-features = false }

[dev-dependencies]
bytemuck = "1"
