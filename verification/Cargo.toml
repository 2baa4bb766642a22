[package]
name = "apur"
version = "0.1.0"
edition = "2021"
publish = false

[dependencies]
wgpu = "0.6"
zerocopy = "0.3"
futures = "0.3"
glam = "0.9"
tobj = "2"
image = "0.23"
winit = "0.22"
log = "0.4"
env_logger = "0.7"
pollster = "0.2"
