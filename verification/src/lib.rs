//! Bitmap font atlas construction.
//!
//! The crate turns a table of rasterized glyph coverage bitmaps into a single
//! square atlas texture together with per-glyph placement metadata. The
//! supported code points are the byte values `32..=255`: code point 32 (space)
//! is synthesized as a fixed zero-size entry, and every code point in
//! `33..=255` occupies one slot of a fixed 16 x 16 grid.

pub mod geometry;
pub mod glyph;
pub mod metadata;
pub mod compose;
pub mod sampler;
pub mod atlas;
