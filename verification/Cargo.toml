[package]
name = "glium_sdl2_glue"
version = "0.1.0"
edition = "2021"
publish = false

[dependencies]
glium = { version = "*", default-features = false }
thiserror = "*"
