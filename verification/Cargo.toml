[package]
name = "gassim"
version = "0.1.0"
edition = "2021"
publish = false

[dependencies]
egui = "=0.36.2"
egui-snarl = "=0.12.0"
eframe = { version = "=0.36.2", default-features = false, features = ["glow", "x11", "default_fonts"] }
uom = "=0.38.0"
num-traits = "=0.2.19"
