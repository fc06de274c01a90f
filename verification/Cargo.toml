[package]
name = "wgpu_glyph"
version = "0.1.0"
edition = "2021"
publish = false

[dependencies]
wgpu = "0.9"
glyph_brush = "0.7"
bytemuck = { version = "1", features = ["derive"] }
ordered-float = "*"
log = "0.4"
