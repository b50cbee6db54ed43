[package]
name = "bevy_app"
version = "0.1.0"
edition = "2021"
publish = false

[dependencies]
legion = "0.2"
