[package]
name = "raytracer"
version = "0.1.0"
edition = "2021"
publish = false

[dependencies]
mersenne_twister = "*"
rand = "0.3"
tobj = "*"
metal = "*"
cocoa = "*"
objc = "*"
winit = "*"
