[package]
name = "voidrun_godot"
version = "0.1.0"
edition = "2021"
publish = false

[dependencies]
rand = "=0.8.8"
bevy = { version = "=0.16.1", default-features = false }
godot = "=0.4.5"
