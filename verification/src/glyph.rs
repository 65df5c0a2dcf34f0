//! Owned storage for sampled glyph bitmaps and their metrics.

use vstd::prelude::*;

verus! {

/// Number of entries in the per-code-point tables: one for each byte value.
pub const CODE_POINT_TABLE_SIZE: usize = 256;

/// The first rasterized code point. Code point 32 (space) is synthesized and
/// never rasterized; everything below it is a control character.
pub const FIRST_RASTERED_CODE_POINT: usize = 33;

/// A `GlyphImage` is an owned copy of the raw 8-bit coverage bitmap of a
/// single glyph, row-major with `pitch` bytes per row. The copy is mandatory:
/// the rasterizer overwrites its single internal buffer on every call.
#[derive(Clone)]
pub struct GlyphImage {
    /// The raw coverage bytes, `rows * pitch` of them.
    pub data: Vec<u8>,
}

impl GlyphImage {
    pub fn new(data: Vec<u8>) -> (r: GlyphImage)
        ensures
            r.data == data,
    {
        GlyphImage {
            data,
        }
    }
}

/// A `GlyphTable` stores, for each code point in `33..=255`, the dimensions
/// and the owned coverage bitmap of its rastered glyph. Entries below 33 are
/// unused and stay zero-sized.
pub struct GlyphTable {
    /// The height of each glyph in pixels.
    pub rows: Vec<i32>,
    /// The width of each glyph row in pixels.
    pub width: Vec<i32>,
    /// The number of bytes per bitmap row of each glyph; at least the width,
    /// since the rasterizer may pad rows.
    pub pitch: Vec<i32>,
    /// The vertical bearing of each glyph: the minimum y of its tight
    /// bounding box in pixel units, signed (negative for descenders).
    pub y_min: Vec<i64>,
    /// The owned bitmap image of each glyph.
    pub buffer: Vec<GlyphImage>,
}

/// Consistent metrics for one sampled glyph: non-negative dimensions, a row
/// stride no smaller than the row width, and a bitmap buffer that holds
/// exactly `rows * pitch` bytes (hence at least `rows * width`).
pub open spec fn glyph_wf(rows: i32, width: i32, pitch: i32, image: GlyphImage) -> bool {
    &&& 0 <= rows
    &&& 0 <= width <= pitch
    &&& image.data@.len() == rows * pitch
    &&& image.data@.len() >= rows * width
}

impl GlyphTable {
    /// A well-formed table has one entry per byte value in each column, and
    /// consistent metrics for every rastered code point.
    pub open spec fn wf(self) -> bool {
        &&& self.rows@.len() == CODE_POINT_TABLE_SIZE
        &&& self.width@.len() == CODE_POINT_TABLE_SIZE
        &&& self.pitch@.len() == CODE_POINT_TABLE_SIZE
        &&& self.y_min@.len() == CODE_POINT_TABLE_SIZE
        &&& self.buffer@.len() == CODE_POINT_TABLE_SIZE
        &&& forall|c: int| FIRST_RASTERED_CODE_POINT <= c < CODE_POINT_TABLE_SIZE
            ==> glyph_wf(self.rows@[c], self.width@[c], self.pitch@[c], #[trigger] self.buffer@[c])
    }
}

} // verus!
