[package]
name = "multiwin"
version = "0.1.0"
edition = "2021"
publish = false

[dependencies]
glutin = "0.29"
egui = "0.19"
egui_glow = { version = "0.19", features = ["winit"] }
glow = "0.11"
thiserror = "1"
