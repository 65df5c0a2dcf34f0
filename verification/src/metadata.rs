//! Per-glyph placement metadata: the normalized rectangle and baseline offset
//! a renderer uses to address the atlas texture.

use vstd::prelude::*;
use crate::geometry::AtlasSpec;
use crate::glyph::GlyphTable;

verus! {

/// An exact rational number. All metadata quantities are ratios of small
/// integers (pixel counts over atlas or slot dimensions), so they are kept
/// exactly; a consumer that wants a floating point value divides the parts.
#[derive(Copy, Clone, Debug, PartialEq, Eq, Structural)]
pub struct Frac {
    /// The numerator, signed: baseline offsets may be negative.
    pub num: i128,
    /// The denominator, always a positive pixel dimension.
    pub den: usize,
}

/// The code point that is synthesized with fixed metadata and never rastered.
pub const SPACE_CODE_POINT: usize = 32;

/// Derived placement quantities for one glyph, all relative to the atlas
/// dimensions or the slot size.
#[derive(Copy, Clone, Debug, PartialEq, Eq, Structural)]
pub struct GlyphMetadata {
    /// The code point this entry describes.
    pub code_point: usize,
    /// The destination grid row of the glyph.
    pub row: usize,
    /// The destination grid column of the glyph.
    pub column: usize,
    /// Normalized width: (bitmap width + padding) / slot size.
    pub width: Frac,
    /// Normalized height: (bitmap rows + padding) / slot size.
    pub height: Frac,
    /// Normalized left edge of the slot: (column * slot size) / atlas width.
    pub x_min: Frac,
    /// Normalized top edge of the slot: (row * slot size) / atlas height.
    pub y_min: Frac,
    /// Normalized baseline offset: (vertical bearing - padding) / slot size.
    pub y_offset: Frac,
}

impl GlyphMetadata {
    /// Plain constructor; the argument order mirrors the serialized record.
    pub fn new(
        code_point: usize, row: usize, column: usize,
        width: Frac, height: Frac, x_min: Frac, y_min: Frac, y_offset: Frac)
        -> (r: GlyphMetadata)
        ensures
            r == (GlyphMetadata { code_point, row, column, width, height, x_min, y_min, y_offset }),
    {
        GlyphMetadata {
            code_point,
            row,
            column,
            width,
            height,
            x_min,
            y_min,
            y_offset,
        }
    }
}

/// The position of a code point in the grid walk: slots are assigned to code
/// points in ascending order starting at 32.
pub open spec fn spec_glyph_order(c: int) -> int {
    c - 32
}

/// The grid column of a code point: its order modulo the column count.
pub open spec fn spec_glyph_column(c: int, s: AtlasSpec) -> int {
    spec_glyph_order(c) % (s.columns as int)
}

/// The grid row of a code point: its order divided by the column count. This
/// matches the compositor's walk, which fills slot `row * columns + column`.
pub open spec fn spec_glyph_row(c: int, s: AtlasSpec) -> int {
    spec_glyph_order(c) / (s.columns as int)
}

/// The fixed metadata of the space code point: a zero-size box with the
/// half-width advance convention, independent of the atlas parameters.
pub open spec fn spec_space_metadata() -> GlyphMetadata {
    GlyphMetadata {
        code_point: SPACE_CODE_POINT,
        row: 0,
        column: 0,
        width: Frac { num: 1, den: 2 },
        height: Frac { num: 1, den: 1 },
        x_min: Frac { num: 0, den: 1 },
        y_min: Frac { num: 0, den: 1 },
        y_offset: Frac { num: 0, den: 1 },
    }
}

/// The exact metadata of a rastered code point `c` in `33..=255`.
pub open spec fn spec_glyph_metadata(tab: GlyphTable, s: AtlasSpec, c: int) -> GlyphMetadata {
    let col = spec_glyph_column(c, s);
    let row = spec_glyph_row(c, s);
    GlyphMetadata {
        code_point: c as usize,
        row: row as usize,
        column: col as usize,
        width: Frac { num: (tab.width@[c] + s.padding) as i128, den: s.slot_glyph_size },
        height: Frac { num: (tab.rows@[c] + s.padding) as i128, den: s.slot_glyph_size },
        x_min: Frac { num: (col * s.slot_glyph_size) as i128, den: s.width },
        y_min: Frac { num: (row * s.slot_glyph_size) as i128, den: s.height },
        y_offset: Frac { num: (tab.y_min@[c] - s.padding) as i128, den: s.slot_glyph_size },
    }
}

/// The metadata table entry at index `i` describes code point `32 + i`.
pub open spec fn spec_metadata_entry(tab: GlyphTable, s: AtlasSpec, c: int) -> GlyphMetadata {
    if c == SPACE_CODE_POINT {
        spec_space_metadata()
    } else {
        spec_glyph_metadata(tab, s, c)
    }
}

/// Build the metadata table: one entry for each code point in `{32} u 33..=255`,
/// in ascending code point order, so entry `i` describes code point `32 + i`.
pub fn create_bitmap_metadata(glyph_tab: &GlyphTable, atlas_spec: AtlasSpec)
    -> (r: Vec<GlyphMetadata>)
    requires
        atlas_spec.wf(),
        glyph_tab.wf(),
    ensures
        r@.len() == 224,
        forall|i: int| 0 <= i < r@.len()
            ==> #[trigger] r@[i] == spec_metadata_entry(*glyph_tab, atlas_spec, 32 + i),
{
    let mut metadata: Vec<GlyphMetadata> = Vec::new();
    let glyph_metadata_space = GlyphMetadata::new(
        SPACE_CODE_POINT, 0, 0,
        Frac { num: 1, den: 2 }, Frac { num: 1, den: 1 },
        Frac { num: 0, den: 1 }, Frac { num: 0, den: 1 }, Frac { num: 0, den: 1 },
    );
    metadata.push(glyph_metadata_space);
    let mut i: usize = 33;
    while i < 256
        invariant
            33 <= i <= 256,
            atlas_spec.wf(),
            glyph_tab.wf(),
            metadata@.len() == i - 32,
            forall|j: int| 0 <= j < metadata@.len()
                ==> #[trigger] metadata@[j] == spec_metadata_entry(*glyph_tab, atlas_spec, 32 + j),
        decreases 256 - i,
    {
        let order = i - 32;
        let col = order % atlas_spec.columns;
        let row = order / atlas_spec.columns;

        proof {
            assert(0 <= col < 16 && 0 <= row < 14) by (nonlinear_arith)
                requires
                    1 <= order < 224,
                    col == order % 16,
                    row == order / 16,
            ;
            assert(col * atlas_spec.slot_glyph_size <= 15 * 0x800_0000) by (nonlinear_arith)
                requires col <= 15, atlas_spec.slot_glyph_size <= 0x800_0000,
            ;
            assert(row * atlas_spec.slot_glyph_size <= 14 * 0x800_0000) by (nonlinear_arith)
                requires row <= 14, atlas_spec.slot_glyph_size <= 0x800_0000,
            ;
        }
        let x_min = Frac { num: (col * atlas_spec.slot_glyph_size) as i128, den: atlas_spec.width };
        let y_min = Frac { num: (row * atlas_spec.slot_glyph_size) as i128, den: atlas_spec.height };
        let width = Frac {
            num: glyph_tab.width[i] as i128 + atlas_spec.padding as i128,
            den: atlas_spec.slot_glyph_size,
        };
        let height = Frac {
            num: glyph_tab.rows[i] as i128 + atlas_spec.padding as i128,
            den: atlas_spec.slot_glyph_size,
        };
        let y_offset = Frac {
            num: glyph_tab.y_min[i] as i128 - atlas_spec.padding as i128,
            den: atlas_spec.slot_glyph_size,
        };

        let glyph_metadata_i = GlyphMetadata::new(i, row, col, width, height, x_min, y_min, y_offset);
        assert(glyph_metadata_i == spec_glyph_metadata(*glyph_tab, atlas_spec, i as int));
        metadata.push(glyph_metadata_i);
        i = i + 1;
    }
    metadata
}

/// Normalized slot corners lie in the unit interval: for every rastered code
/// point and valid geometry, `0 <= x_min < 1` and `0 <= y_min < 1` hold of
/// the exact rationals.
pub proof fn lemma_metadata_unit_interval(tab: GlyphTable, s: AtlasSpec, c: int)
    requires
        s.wf(),
        33 <= c < 256,
    ensures
        0 <= spec_glyph_metadata(tab, s, c).x_min.num < spec_glyph_metadata(tab, s, c).x_min.den,
        0 <= spec_glyph_metadata(tab, s, c).y_min.num < spec_glyph_metadata(tab, s, c).y_min.den,
{
    let order = spec_glyph_order(c);
    let col = spec_glyph_column(c, s);
    let row = spec_glyph_row(c, s);
    assert(0 <= col < 16 && 0 <= row < 14) by (nonlinear_arith)
        requires 1 <= order < 224, col == order % 16, row == order / 16,
    ;
    assert(col * s.slot_glyph_size < 16 * s.slot_glyph_size) by (nonlinear_arith)
        requires 0 <= col < 16, 0 < s.slot_glyph_size,
    ;
    assert(row * s.slot_glyph_size < 16 * s.slot_glyph_size) by (nonlinear_arith)
        requires 0 <= row < 16, 0 < s.slot_glyph_size,
    ;
    assert(col * s.slot_glyph_size <= 16 * 0x800_0000) by (nonlinear_arith)
        requires 0 <= col < 16, s.slot_glyph_size <= 0x800_0000,
    ;
    assert(row * s.slot_glyph_size <= 16 * 0x800_0000) by (nonlinear_arith)
        requires 0 <= row < 16, s.slot_glyph_size <= 0x800_0000,
    ;
}

/// The metadata table covers the supported code points exactly once: entry
/// `c - 32` describes code point `c`, and no other entry does.
pub proof fn lemma_metadata_exactly_one(md: Seq<GlyphMetadata>, tab: GlyphTable, s: AtlasSpec, c: int)
    requires
        md.len() == 224,
        forall|i: int| 0 <= i < md.len()
            ==> #[trigger] md[i] == spec_metadata_entry(tab, s, 32 + i),
        32 <= c < 256,
    ensures
        md[c - 32].code_point == c,
        forall|i: int| 0 <= i < md.len() && (#[trigger] md[i]).code_point == c ==> i == c - 32,
{
    assert forall|i: int| 0 <= i < md.len() implies (#[trigger] md[i]).code_point == 32 + i by {
        assert(md[i] == spec_metadata_entry(tab, s, 32 + i));
    }
}

} // verus!
