[package]
name = "mesh_pipeline"
version = "0.1.0"
edition = "2021"
publish = false

[dependencies]
fixedbitset = "=0.5.7"
nonmax = "=0.5.5"
smallvec = "=1.16.4"
bevy_platform = "=0.20.0"
bevy_app = "=0.20.0"
bevy_ecs = "=0.20.0"
bevy_math = "=0.20.0"
bevy_transform = "=0.20.0"
bevy_mesh = { version = "=0.20.0", features = ["morph"] }
bevy_asset = "=0.20.0"
bevy_image = "=0.20.0"
bevy_camera = "=0.20.0"
bevy_macro_utils = "=0.20.0"
wgpu-types = "=30.0.1"
thiserror = "=2.0.21"
tracing = "0.1"
syn = "2"
quote = "1"
