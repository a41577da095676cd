[package]
name = "bevy_orbit_controls"
version = "2.0.0"
edition = "2021"
publish = false

[dependencies]
bevy = { version = "=0.5.0", default-features = false }
pin-project = "=1.0.12"
