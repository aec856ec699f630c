[package]
name = "learning_vulkan"
version = "0.1.0"
edition = "2021"
publish = false

[dependencies]
ash = "0.38"
ash-window = "0.13"
tracing = "0.1"
tracing-subscriber = "0.3"
winit = "0.30"
