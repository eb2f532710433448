[package]
name = "vulkan_renderer"
version = "0.1.0"
edition = "2021"
publish = false

[dependencies]
jay-ash = "*"
winit = "*"
raw-window-handle = "0.6"
raw-window-metal = "*"
glam = "*"
bytemuck = { version = "*", features = ["derive"] }
thiserror = "*"
num = "*"
