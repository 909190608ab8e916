[package]
name = "map_photography"
version = "0.1.0"
edition = "2021"
publish = false

[dependencies]
twgpu = "=0.2.0"
twmap = "=0.7.0"
wgpu = "=0.13.1"
image = "=0.24.9"
pollster = "=0.2.5"
env_logger = "=0.9.3"
