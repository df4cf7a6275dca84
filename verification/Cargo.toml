[package]
name = "vulcan_engine"
version = "0.1.0"
edition = "2021"
publish = false

[dependencies]
png = "0.17"
vulkanalia = "0.26"
winit = "0.30"
glam = "0.29"
anyhow = "1"
