[package]
name = "kreeda"
version = "0.1.0"
edition = "2021"
publish = false

[dependencies]
once_cell = "1"
pollster = "0.3"
wgpu = "0.20"
winit = "0.30"
