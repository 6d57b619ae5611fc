[package]
name = "bevy_godot4"
version = "0.1.0"
edition = "2021"
publish = false

[dependencies]
bevy = { version = "=0.16.1", default-features = false, features = ["std", "bevy_log", "multi_threaded", "async_executor"] }
godot = "0.4"
lazy_static = "=1.5.1"
paste = "=1.0.15"
proc-macro2 = "=1.0.107"
quote = "=1.0.47"
syn = { version = "=2.0.119", features = ["full"] }
