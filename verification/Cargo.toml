[package]
name = "orbit_zoom_camera"
version = "0.1.0"
edition = "2021"
publish = false

[dependencies]
quaternion = "*"
vecmath = "*"
pistoncore-input = "*"
