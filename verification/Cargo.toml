[package]
name = "solarsim"
version = "0.1.0"
edition = "2021"
publish = false

[dependencies]
rand = "*"
glam = "*"
bytemuck = { version = "1", features = ["derive"] }
pollster = "0.3"
tobj = "4"
wgpu = "0.20"
winit = "0.30"
