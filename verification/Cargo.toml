[package]
name = "bevy_seedling_spatial"
version = "0.1.0"
edition = "2021"
publish = false

[dependencies]
firewheel = { version = "=0.14.0", default-features = false, features = ["std", "glam-32"] }
bevy_app = { version = "=0.19.1", default-features = false, features = ["std"] }
bevy_ecs = { version = "=0.19.1", default-features = false, features = ["std"] }
bevy_math = { version = "=0.19.1", default-features = false, features = ["std"] }
bevy_time = { version = "=0.19.1", default-features = false, features = ["std"] }
bevy_transform = { version = "=0.19.1", default-features = false, features = ["std", "bevy-support"] }
