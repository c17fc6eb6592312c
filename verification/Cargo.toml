[package]
name = "bevy_wallpaper"
version = "0.1.0"
edition = "2021"
publish = false

[dependencies]
bevy = { version = "=0.15.3", default-features = false, features = ["bevy_window", "bevy_pbr"] }
bevy_capture = { version = "=0.2.1", features = ["gif"] }
bevy_ecs = "=0.15.4"
bevy_log = "=0.15.3"
bevy_math = "=0.15.3"
bevy_window = "=0.15.3"
tracing = "=0.1.44"
winit = { version = "=0.30.13", default-features = false, features = ["rwh_06", "x11"] }
x11rb = { version = "=0.13.2", features = ["image"] }
