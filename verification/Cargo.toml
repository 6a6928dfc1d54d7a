[package]
name = "render_gather"
version = "0.1.0"
edition = "2021"
publish = false

[dependencies]
amethyst_core = "=0.10.1"
glsl-layout = "*"
nalgebra = "*"
