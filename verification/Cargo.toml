[package]
name = "widgets"
version = "0.1.0"
edition = "2021"
publish = false

[dependencies]
winit = "0.24"
glium = "0.29"
glyph_brush = "0.7"
font-kit = "0.10"
