[package]
name = "physics_sandbox"
version = "0.1.0"
edition = "2021"
publish = false

[dependencies]
rapier2d = "0.22"
macroquad = { version = "0.4", default-features = false }
