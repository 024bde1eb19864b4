[package]
name = "compute_demos"
version = "0.1.0"
edition = "2021"
publish = false

[dependencies]
vulkano = "=0.18.0"
vulkano-shaders = "=0.18.0"
vk-sys = "=0.5.1"
