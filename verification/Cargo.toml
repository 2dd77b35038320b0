[package]
name = "rad_builder"
version = "0.1.0"
edition = "2021"
publish = false

[dependencies]
chrono = "=0.4.45"
eframe = { version = "=0.33.3", default-features = false, features = ["default_fonts", "glow", "x11"] }
egui = { version = "=0.33.3", features = ["serde"] }
egui_extras = { version = "=0.33.3", features = ["datepicker"] }
rfd = { version = "=0.15.4", default-features = false, features = ["xdg-portal", "tokio"] }
serde = { version = "=1.0.229", features = ["derive"] }
serde_json = "=1.0.154"
syntect = { version = "=5.3.0", default-features = false, features = ["default-fancy"] }
