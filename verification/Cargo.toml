[package]
name = "cartpole_sim"
version = "0.1.0"
edition = "2021"

[dependencies]
bus = "*"
ticker = "*"
mem_macros = "*"
piston = "*"
piston2d-graphics = "*"
piston2d-opengl_graphics = "*"
pistoncore-glutin_window = "*"
