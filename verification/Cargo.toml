[package]
name = "sprites"
version = "0.1.0"
edition = "2021"
publish = false

[dependencies]
piston2d-graphics = "*"
piston2d-opengl_graphics = "*"
