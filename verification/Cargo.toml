[package]
name = "miata_dash"
version = "0.1.0"
edition = "2021"
publish = false

[dependencies]
rand = "=0.9.5"
chrono = "=0.4.45"
egui = "=0.32.3"
eframe = { version = "=0.32.3", default-features = false, features = ["glow", "x11", "default_fonts"] }
egui_extras = { version = "=0.32.3", default-features = false, features = ["svg", "image"] }
image = { version = "=0.25.10", default-features = false, features = ["png", "jpeg"] }
lofty = "=0.25.5"
rodio = "=0.23.0"
serde = { version = "=1.0.229", features = ["derive"] }
serde_json = "=1.0.154"
mimalloc = "=0.1.52"
