[package]
name = "fna3d"
version = "0.1.0"
edition = "2021"
publish = false

[dependencies]
imgui = "0.5"
sdl2 = "0.34"
thiserror = "1"
