[package]
name = "lod_readback"
version = "0.1.0"
edition = "2021"
publish = false

[dependencies]
flume = "*"
pollster = "*"
shaderc = "*"
wgpu = "0.20"
