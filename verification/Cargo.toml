[package]
name = "sw3d"
version = "0.1.0"
edition = "2021"
publish = false

[dependencies]
cgmath = "0.16"
image = "0.20"
vulkano = "0.11"
vulkano-shader-derive = "0.11"
vulkano-win = "0.11"
winit = "0.18"
