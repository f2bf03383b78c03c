[package]
name = "hue_walk"
version = "0.1.0"
edition = "2021"
publish = false

[dependencies]
colors-transform = "=0.2.11"
rand = "=0.10.3"
sdl2 = { version = "=0.38.0", features = ["gfx"] }
