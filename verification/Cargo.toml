[package]
name = "cubefield"
version = "0.1.0"
edition = "2021"
publish = false

[dependencies]
cgmath = "=0.18.0"
gl = "=0.14.0"
glium = "=0.36.0"
rand = "=0.10.3"
sdl2 = "=0.38.0"
