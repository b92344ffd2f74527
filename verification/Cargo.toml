[package]
name = "gpu_shell"
version = "0.1.0"
edition = "2021"
publish = false

[dependencies]
wgpu = "=22.1.0"
winit = "0.30"
futures = "0.3"
