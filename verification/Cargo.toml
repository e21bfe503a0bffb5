[package]
name = "bevycube"
version = "0.1.0"
edition = "2021"
publish = false

[dependencies]
bevy = { version = "=0.18.1", default-features = false, features = ["std", "bevy_asset", "bevy_pbr", "bevy_picking", "mesh_picking", "jpeg", "mouse", "touch"] }
log = "=0.4.35"
console_log = "=1.1.0"
web-sys = { version = "=0.3.107", features = ["Window"] }
