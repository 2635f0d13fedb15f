[package]
name = "gizmo_setup_wizard"
version = "0.1.0"
edition = "2021"
publish = false

[dependencies]
anyhow = "=1.0.104"
eframe = { version = "=0.36.2", default-features = false, features = ["default_fonts", "glow", "x11"] }
egui = "=0.36.2"
egui_alignments = "=0.3.9"
egui_extras = "=0.36.2"
reqwest = { version = "=0.12.28", default-features = false, features = ["blocking", "json", "rustls-tls"] }
serde = { version = "=1.0.229", features = ["derive"] }
serde_json = "=1.0.154"
tempfile = "=3.27.0"
zip-extract = { version = "=0.4.1", default-features = false, features = ["deflate"] }
