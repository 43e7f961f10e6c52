[package]
name = "raytracer"
version = "0.1.0"
edition = "2021"
publish = false

[dependencies]
softfloat = "=1.0.0"
