[package]
name = "grus_gui_lib"
version = "0.1.0"
edition = "2021"
publish = false

[dependencies]
egui = "0.22.0"
epaint = "0.22.0"
chrono = "0.4"
num-traits = "0.2"
