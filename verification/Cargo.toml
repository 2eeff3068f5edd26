[package]
name = "function_plotter"
version = "0.1.0"
edition = "2021"
publish = false

[dependencies]
meval = "0.2"
eframe = { version = "0.22", default-features = false, features = ["default_fonts", "glow"] }
