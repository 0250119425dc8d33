[package]
name = "navmesh_scene"
version = "0.1.0"
edition = "2021"
publish = false

[dependencies]
bevy = { version = "=0.9.1", default-features = false, features = ["bevy_asset", "bevy_scene", "bevy_winit", "render", "png", "x11"] }
bevy_editor_pls = "0.2"
bevy_prototype_debug_lines = { version = "=0.9.0", features = ["3d"] }
bevy_rapier3d = "=0.20.0"
oxidized_navigation = "=0.2.0"
smooth-bevy-cameras = "=0.6.0"
