[package]
name = "scene_demos"
version = "0.1.0"
edition = "2021"
publish = false

[dependencies]
bevy = { version = "=0.7.0", default-features = false, features = ["render", "bevy_winit", "png", "x11"] }
bevy_egui = { version = "=0.14.0", default-features = false }
bevy_obj = "=0.7.0"
darling = "=0.13.4"
rand = "=0.8.8"
smooth-bevy-cameras = "=0.4.0"
