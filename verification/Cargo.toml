[package]
name = "text_editor"
version = "0.1.0"
edition = "2021"
publish = false

[dependencies]
eframe = { version = "=0.21.3", default-features = false, features = ["glow", "default_fonts"] }
egui_glow = { version = "=0.21.0", default-features = false }
glow_glyph = "=0.6.0"
