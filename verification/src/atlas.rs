//! The pipeline driver: compose geometry, sampling, metadata and image
//! building into a single "typeface to atlas" operation.

use vstd::prelude::*;
use crate::geometry::{AtlasSpec, Origin};
use crate::glyph::GlyphTable;
use crate::metadata::{GlyphMetadata, create_bitmap_metadata, spec_metadata_entry};
use crate::compose::{BitmapFontAtlasImage, create_bitmap_image, spec_composed_buffer};
use crate::compose::{spec_glyph_index, spec_slot_column, spec_slot_row};
use crate::metadata::spec_glyph_metadata;
use crate::sampler::{SampleTypefaceError, sample_typeface, spec_sample_error_wf};

verus! {

/// The packing parameters bundled with the per-glyph metadata records, as
/// serialized into the atlas container next to the image.
pub struct BitmapFontAtlasMetadata {
    /// The origin and coordinate chart for the atlas image.
    pub origin: Origin,
    /// The width of the atlas in pixels.
    pub width: usize,
    /// The height of the atlas in pixels.
    pub height: usize,
    /// The number of slot columns in the atlas.
    pub columns: usize,
    /// The number of slot rows in the atlas.
    pub rows: usize,
    /// The padding reserved in each slot, in pixels.
    pub padding: usize,
    /// The pixel size of one grid slot, padding included.
    pub slot_glyph_size: usize,
    /// The usable raster size of a glyph inside its slot.
    pub glyph_size: usize,
    /// One placement record per supported code point, ascending from 32.
    pub glyph_metadata: Vec<GlyphMetadata>,
}

/// A complete bitmapped font atlas: the packing metadata and the image.
pub struct BitmapFontAtlas {
    pub metadata: BitmapFontAtlasMetadata,
    pub image: BitmapFontAtlasImage,
}

impl BitmapFontAtlas {
    pub fn new(metadata: BitmapFontAtlasMetadata, image: BitmapFontAtlasImage)
        -> (r: BitmapFontAtlas)
        ensures
            r.metadata == metadata,
            r.image == image,
    {
        BitmapFontAtlas {
            metadata,
            image,
        }
    }
}

/// The atlas that a well-formed glyph table and specification determine: the
/// metadata block repeats the specification's parameters, the glyph records
/// are exactly the derived placement records, and the image is exactly the
/// composited (and, for a bottom-left origin, flipped) pixel buffer.
pub open spec fn spec_atlas_consistent(tab: GlyphTable, s: AtlasSpec, atlas: BitmapFontAtlas) -> bool {
    &&& tab.wf()
    &&& atlas.metadata.origin == s.origin
    &&& atlas.metadata.width == s.width
    &&& atlas.metadata.height == s.height
    &&& atlas.metadata.columns == s.columns
    &&& atlas.metadata.rows == s.rows
    &&& atlas.metadata.padding == s.padding
    &&& atlas.metadata.slot_glyph_size == s.slot_glyph_size
    &&& atlas.metadata.glyph_size == s.glyph_size
    &&& atlas.metadata.glyph_metadata@.len() == 224
    &&& forall|i: int| 0 <= i < 224
        ==> #[trigger] atlas.metadata.glyph_metadata@[i] == spec_metadata_entry(tab, s, 32 + i)
    &&& atlas.image.width == s.width
    &&& atlas.image.height == s.height
    &&& atlas.image.origin == s.origin
    &&& atlas.image.data@ == spec_composed_buffer(tab, s)
}

/// The metadata's grid placement agrees with the compositor's walk: for any
/// atlas pixel whose slot the compositor assigns to code point `c`, the slot's
/// grid column and row are exactly the ones recorded in `c`'s metadata (the
/// compositor's `row = order / columns` derivation is the authoritative one).
pub proof fn lemma_metadata_placement_consistent(tab: GlyphTable, s: AtlasSpec, x: int, y: int)
    requires
        s.wf(),
        0 <= x < s.width,
        0 <= y < s.height,
        33 <= spec_glyph_index(s, x, y) < 256,
    ensures
        spec_glyph_metadata(tab, s, spec_glyph_index(s, x, y)).column == spec_slot_column(s, x),
        spec_glyph_metadata(tab, s, spec_glyph_index(s, x, y)).row == spec_slot_row(s, y),
{
    let slot = s.slot_glyph_size as int;
    let col = spec_slot_column(s, x);
    let row = spec_slot_row(s, y);
    assert(0 <= col < 16 && 0 <= row < 16) by (nonlinear_arith)
        requires
            col == x / slot,
            row == y / slot,
            0 <= x < 16 * slot,
            0 <= y < 16 * slot,
            0 < slot,
    ;
    let order = spec_glyph_index(s, x, y) - 32;
    vstd::arithmetic::div_mod::lemma_fundamental_div_mod_converse(order, 16, row, col);
}

/// Create a bitmapped atlas from a vector-based typeface: sample the glyphs,
/// derive the placement metadata, composite the image, and bundle all of it.
/// A failure in any stage short-circuits the pipeline unchanged; on success
/// the whole bundle is consistent with one well-formed sampled glyph table.
pub fn create_bitmap_atlas(face: &freetype::face::Face, atlas_spec: AtlasSpec)
    -> (r: Result<BitmapFontAtlas, SampleTypefaceError>)
    requires
        atlas_spec.wf(),
    ensures
        r matches Ok(atlas)
            ==> exists|tab: GlyphTable| #[trigger] spec_atlas_consistent(tab, atlas_spec, atlas),
        r matches Err(e) ==> spec_sample_error_wf(e, atlas_spec),
{
    let glyph_tab = match sample_typeface(face, atlas_spec) {
        Ok(val) => val,
        Err(e) => {
            return Err(e);
        },
    };
    let glyph_metadata = create_bitmap_metadata(&glyph_tab, atlas_spec);
    let atlas_image = create_bitmap_image(&glyph_tab, atlas_spec);

    let metadata = BitmapFontAtlasMetadata {
        origin: atlas_spec.origin,
        width: atlas_spec.width,
        height: atlas_spec.height,
        columns: atlas_spec.columns,
        rows: atlas_spec.rows,
        padding: atlas_spec.padding,
        slot_glyph_size: atlas_spec.slot_glyph_size,
        glyph_size: atlas_spec.glyph_size,
        glyph_metadata,
    };

    let atlas = BitmapFontAtlas::new(metadata, atlas_image);
    proof {
        assert(spec_atlas_consistent(glyph_tab, atlas_spec, atlas));
    }
    Ok(atlas)
}

} // verus!
