[package]
name = "egui_svgicon"
version = "0.1.0"
edition = "2021"
publish = false

[dependencies]
egui = "0.21"
epaint = "0.21"
lyon = "1.0"
usvg = { version = "0.29", default-features = false }
