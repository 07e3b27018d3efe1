[package]
name = "frontend_rust"
version = "0.1.0"
edition = "2021"
publish = false

[dependencies]
chrono = { version = "=0.4.45", default-features = false, features = ["alloc"] }
egui = "=0.24.1"
egui_plot = "=0.24.2"
eframe = { version = "=0.24.1", default-features = false, features = ["glow", "default_fonts", "x11"] }
tokio = { version = "=1.54.1", features = ["rt-multi-thread", "sync"] }
tonic = "=0.11.0"
prost = "=0.12.6"
rand = "=0.8.8"
