[package]
name = "drag_capture"
version = "0.1.0"
edition = "2021"
publish = false

[dependencies]
global-hotkey = "0.2"
image = "0.24"
imageproc = "0.23"
rusttype = "0.9"
eframe = { version = "0.22", default-features = false, features = ["glow", "default_fonts"] }
egui = "0.22"
epaint = "0.22"
arboard = "3"
dirs = "5"
chrono = "0.4"
