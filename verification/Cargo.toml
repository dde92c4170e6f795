[package]
name = "epn_gui"
version = "0.1.0"
edition = "2021"
publish = false

[dependencies]
egui = "0.18"
eframe = { version = "0.18", features = ["persistence"] }
emath = "0.18"
serde = { version = "1", features = ["derive"] }
serde_json = "1"
