[package]
name = "egui_winit_vulkano"
version = "0.1.0"
edition = "2021"
publish = false

[dependencies]
egui = "=0.37.0"
image = { version = "=0.25.10", default-features = false, features = ["png"] }
vulkano = "=0.35.2"
winit = { version = "=0.30.13", default-features = false, features = ["x11"] }
