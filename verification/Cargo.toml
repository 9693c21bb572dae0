[package]
name = "loaded_string"
version = "0.1.0"
edition = "2021"
publish = false

[dependencies]
eframe = { version = "0.18", features = ["persistence"] }
egui = "0.18"
image = { version = "0.24", default-features = false, features = ["png"] }
serde = { version = "1", features = ["derive"] }
