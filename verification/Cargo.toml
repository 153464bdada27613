[package]
name = "penny"
version = "0.1.0"
edition = "2021"
publish = false

[dependencies]
egui = "0.31"
egui-phosphor = "0.9"
eframe = { version = "0.31", default-features = false, features = ["default_fonts", "glow", "x11", "wayland"] }
image = { version = "0.25", default-features = false, features = ["png"] }
chrono = "0.4"
dirs = "6"
serde = { version = "1", features = ["derive"] }
serde_json = "1"
global-hotkey = "0.6"
