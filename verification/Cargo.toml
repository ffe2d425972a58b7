[package]
name = "glyph_typeset"
version = "0.1.0"
edition = "2021"
publish = false

[dependencies]
ttf-parser = "*"
rustybuzz = "*"
font-kit = "*"
serde = { version = "1", features = ["derive"] }
