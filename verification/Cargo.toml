[package]
name = "nbody_sim"
version = "0.1.0"
edition = "2021"
publish = false

[dependencies]
rustc-hash = "2"
winit = "0.30"
glam = "0.29"
rand = "0.9"
bytemuck = { version = "1", features = ["derive"] }
sgpu = "*"
nexion = "*"
