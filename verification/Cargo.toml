[package]
name = "renderer"
version = "0.1.0"
edition = "2021"
publish = false

[dependencies]
egui = { version = "0.31", default-features = false, features = ["default_fonts"] }
egui-wgpu = { version = "0.31", default-features = false }
egui-winit = { version = "0.31", default-features = false }
env_logger = { version = "0.11", default-features = false }
image = { version = "0.25", default-features = false, features = ["png"] }
pollster = "0.3"
wgpu = { version = "24", default-features = false, features = ["wgsl"] }
winit = { version = "0.30", default-features = false, features = ["x11", "rwh_06"] }
