[package]
name = "pong"
version = "0.1.0"
edition = "2021"
publish = false

[dependencies]
rand = "0.3"
clock_ticks = "*"
sdl2 = "*"
sdl2_gfx = "*"
