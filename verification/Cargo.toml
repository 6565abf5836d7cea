[package]
name = "glyph_fonts"
version = "0.1.0"
edition = "2021"
publish = false

[dependencies]
ab_glyph = "0.2"
ahash = { version = "0.8", default-features = false, features = ["no-rng", "std"] }
log = "0.4"
serde = { version = "1", features = ["derive"] }
