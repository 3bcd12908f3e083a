[package]
name = "pixel_formats"
version = "0.1.0"
edition = "2021"
publish = false

[dependencies]
bitfrob = "*"
bytemuck = { version = "*", features = ["derive"] }
fast-srgb8 = "*"
