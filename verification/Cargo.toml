[package]
name = "revy"
version = "0.1.0"
edition = "2021"
publish = false

[dependencies]
bevy_ecs = "*"
bevy_reflect = "*"
bevy_transform = "*"
ron = "*"
