[package]
name = "qwen_metal"
version = "0.1.0"
edition = "2021"
publish = false

[dependencies]
bytemuck = "1"

[dev-dependencies]
half = { version = "2", features = ["bytemuck"] }
