[package]
name = "framegraph"
version = "0.1.0"
edition = "2021"
publish = false

[dependencies]
wgpu = "0.5"
bytemuck = "1"
