[package]
name = "map_editor"
version = "0.1.0"
edition = "2021"
publish = false

[dependencies]
egui_dock = "=0.21.1"
eframe = { version = "=0.36.2", default-features = false, features = ["glow", "default_fonts", "x11"] }
egui_glow = "=0.36.2"
glow = "*"
glam = "=0.34.2"
gltf = "=1.4.1"
tobj = "=4.0.5"
rfd = "=0.17.2"
bytemuck = "=1.25.2"
fltk = "=1.5.23"
