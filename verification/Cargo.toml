[package]
name = "calc"
version = "0.1.0"
edition = "2021"
publish = false

[dependencies]
meval = "=0.2.0"
egui = "=0.22.0"
eframe = { version = "=0.22.0", default-features = false, features = ["default_fonts", "glow"] }
