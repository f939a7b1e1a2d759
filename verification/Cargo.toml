[package]
name = "gpu_vk"
version = "0.1.0"
edition = "2021"
publish = false

[dependencies]
ash = "0.37"
ash-window = "0.12"
image = { version = "0.24", default-features = false, features = ["png"] }
raw-window-handle = "0.5"
vk-mem = "0.3"
winit = "0.28"
