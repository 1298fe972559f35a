[package]
name = "ivory_ui"
version = "0.1.0"
edition = "2021"
publish = false

[dependencies]
egui = "0.33"
serde_json = "1"
