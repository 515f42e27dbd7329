[package]
name = "kanirenderer_viewer"
version = "0.1.0"
edition = "2021"
publish = false

[dependencies]
anyhow = "1"
bytemuck = { version = "1", features = ["derive"] }
cgmath = "0.18"
image = "0.24"
instant = "0.1"
pollster = "0.3"
rand = "0.9"
rayon = "1"
tobj = "3"
wgpu = "0.17"
winit = "0.28"
