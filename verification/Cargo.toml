[package]
name = "gpu_evolve_texture"
version = "0.1.0"
edition = "2021"
publish = false

[dependencies]
bevy_app = "=0.8.1"
bevy_asset = "=0.8.1"
bevy_ecs = "=0.8.1"
bevy_render = "=0.8.1"

[dev-dependencies]
wgpu = "=0.13.1"
