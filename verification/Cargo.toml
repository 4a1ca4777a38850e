[package]
name = "bevy_auto_nav_viz"
version = "0.1.0"
edition = "2021"
publish = false

[dependencies]
bevy = { version = "0.18", default-features = false, features = ["bevy_ui", "bevy_input_focus", "bevy_gizmos"] }
