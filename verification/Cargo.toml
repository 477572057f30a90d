[package]
name = "gs_studio"
version = "0.1.0"
edition = "2021"
publish = false

[dependencies]
anyhow = "1"
eframe = { version = "0.31", default-features = false, features = ["default_fonts", "glow", "x11"] }
egui_extras = { version = "0.31", features = ["file", "image"] }
image = { version = "0.25", default-features = false, features = ["png"] }
ndarray = "0.16"
ort = { version = "=2.0.0-rc.10", default-features = false, features = ["load-dynamic"] }
serde = { version = "1", features = ["derive"] }
serde_json = "1"
serde_yaml = "0.9"
