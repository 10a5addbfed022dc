[package]
name = "uranian_dial"
version = "0.1.0"
edition = "2021"
publish = false

[dependencies]
eframe = { version = "0.24", default-features = false, features = ["default_fonts", "glow"] }
egui = { version = "0.24", default-features = false }
