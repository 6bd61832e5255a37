[package]
name = "sand_game"
version = "0.1.0"
edition = "2021"
publish = false

[dependencies]
rand = "=0.8.8"
winit = { version = "0.29", default-features = false, features = ["rwh_06", "x11"] }
image = { version = "0.24", default-features = false, features = ["png"] }
bytemuck = { version = "1", features = ["derive"] }
env_logger = { version = "0.10", default-features = false }
log = "0.4"
pollster = "0.3"
cfg-if = "1"
console_error_panic_hook = "0.1"
console_log = "1"
