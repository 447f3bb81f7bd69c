[package]
name = "gravity_model"
version = "0.1.0"
edition = "2021"
publish = false

[dependencies]
colorous = "1.0"
eframe = { version = "0.20", default-features = false, features = ["glow", "persistence"] }
egui = { version = "0.20", features = ["serde"] }
itertools = "0.10"
ndarray = "0.15"
ndarray-stats = "0.5"
serde = { version = "1", features = ["derive"] }
serde_json = "1"
