[package]
name = "sentinel"
version = "0.1.0"
edition = "2021"
publish = false

[dependencies]
vulkano = "0.34"
winit = { version = "0.28", default-features = false, features = ["x11"] }
