[package]
name = "legion_systems"
version = "0.1.0"
edition = "2021"
publish = false

[dependencies]
legion-core = "*"
fxhash = "0.2"
tracing = "0.1"
once_cell = "1"
bevy_transform = "*"
