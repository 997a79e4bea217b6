[package]
name = "arena_core"
version = "0.1.0"
edition = "2021"
publish = false

[dependencies]
rand = "0.8"
log = "0.4"
wasm-bindgen = "0.2"
bevy = { version = "0.5", default-features = false, features = ["bevy_gltf", "bevy_winit", "bevy_wgpu", "render", "png", "x11"] }
bevy_rapier3d = "0.11"
bevy_prototype_debug_lines = "0.3"
bevy_webgl2 = "0.5"
