[package]
name = "vk_utils"
version = "0.1.0"
edition = "2021"
publish = false

[dependencies]
ash = { version = "0.37", default-features = false, features = ["loaded", "debug"] }
ash-window = "0.12"
raw-window-handle = "0.5"
winit = "0.28"
num = "0.4"
log = "0.4"
scopeguard = "1"
cgmath = "0.18"
rand = "0.8"
memoffset = "0.9"
