[package]
name = "pal"
version = "0.1.0"
edition = "2021"
publish = false

[dependencies]
ash = "0.37"
ash-window = "0.10"
raw-window-handle = "0.4"
gpu-allocator = { version = "0.18", default-features = false, features = ["vulkan"] }
crossbeam-channel = "0.5"
crossbeam-utils = "0.8"
dashmap = "5"
bytemuck = "1"
ordered-float = "3"
thiserror = "1"
