[package]
name = "wgpu_demos"
version = "0.1.0"
edition = "2021"
publish = false

[dependencies]
bytemuck = { version = "1", features = ["derive"] }
egui = "0.18"
egui-wgpu = "0.18"
egui-winit = "0.18"
pollster = "0.2"
wgpu = "0.12"
winit = "0.26"
