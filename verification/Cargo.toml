[package]
name = "compute_dispatch"
version = "0.1.0"
edition = "2021"
publish = false

[dependencies]
wgpu = { version = "=22.1.0", default-features = false, features = ["wgsl"] }
flume = "=0.11.1"
smol = "=2.0.2"
