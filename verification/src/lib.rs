//! Glyphs for text in a user interface.
//!
//! A [`font::Font`] resolves characters to glyphs: it asks a list of typefaces
//! in their order, remembers each answer, and places the pixels of each glyph
//! once in a [`atlas::TextureAtlas`] that all of them share. Lengths are
//! fixed-point numbers ([`fixed::Fixed`]). The library does not rasterize: it
//! says which glyph it needs, and takes what a rasterizer made of it.
//!
//! [`numeric`] holds helpers for interpolation over any numeric type.

pub mod atlas;
pub mod cache;
pub mod chars;
pub mod fixed;
pub mod font;
pub mod font_impl;
pub mod glyph;
pub mod index;
pub mod laws;
pub mod metrics;
pub mod numeric;
pub mod raster;
pub mod typeface;
