[package]
name = "cc_render"
version = "0.1.0"
edition = "2021"
publish = false

[dependencies]
abi_stable = "=0.11.3"
async-trait = "0.1"
crossbeam-channel = "0.5"
image = { version = "=0.25.5", default-features = false, features = ["png"] }
parking_lot = "0.12"
regex = { version = "=1.13.1", default-features = false, features = ["std", "unicode"] }
remotemedia-plugin-sdk = { version = "0.4", default-features = false }
serde = { version = "1", features = ["derive"] }
serde_json = "=1.0.154"
tokio = { version = "1", default-features = false, features = ["sync", "rt"] }
tracing = "0.1"
bevy = { version = "0.15", default-features = false, features = ["animation", "bevy_animation", "bevy_asset", "bevy_color", "bevy_core_pipeline", "bevy_gizmos", "bevy_gltf", "bevy_pbr", "bevy_render", "bevy_scene", "bevy_window", "png"] }
bevy_rapier3d = { version = "0.28", default-features = false, features = ["dim3", "async-collider"] }
wgpu = { version = "23", default-features = false }

[dev-dependencies]
glam = "0.29"
