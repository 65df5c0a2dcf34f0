//! The atlas compositor: packs the sampled glyph bitmaps into one flat RGBA
//! pixel buffer, then re-orients the buffer for the selected origin.

use vstd::prelude::*;
use vstd::arithmetic::div_mod::lemma_fundamental_div_mod_converse;
use crate::geometry::{AtlasSpec, Origin};
use crate::glyph::GlyphTable;

verus! {

/// The finished atlas image: a flat byte buffer, 4 bytes (R, G, B, A) per
/// pixel, row-major, tagged with the coordinate origin used to produce it.
pub struct BitmapFontAtlasImage {
    /// The pixel bytes, `width * height * 4` of them.
    pub data: Vec<u8>,
    /// The width of the image in pixels.
    pub width: usize,
    /// The height of the image in pixels.
    pub height: usize,
    /// The coordinate chart the buffer rows are ordered for.
    pub origin: Origin,
}

impl BitmapFontAtlasImage {
    pub fn new(data: Vec<u8>, width: usize, height: usize, origin: Origin)
        -> (r: BitmapFontAtlasImage)
        ensures
            r.data == data,
            r.width == width,
            r.height == height,
            r.origin == origin,
    {
        BitmapFontAtlasImage {
            data,
            width,
            height,
            origin,
        }
    }
}

/// The grid column that atlas pixel column `x` falls in.
pub open spec fn spec_slot_column(s: AtlasSpec, x: int) -> int {
    x / (s.slot_glyph_size as int)
}

/// The grid row that atlas pixel row `y` falls in.
pub open spec fn spec_slot_row(s: AtlasSpec, y: int) -> int {
    y / (s.slot_glyph_size as int)
}

/// The code point whose slot the atlas pixel `(x, y)` lies in: slots are
/// walked row-major and assigned to code points in ascending order from 32.
pub open spec fn spec_glyph_index(s: AtlasSpec, x: int, y: int) -> int {
    spec_slot_row(s, y) * (s.columns as int) + spec_slot_column(s, x) + 32
}

/// The slot-local x coordinate of atlas pixel column `x`, shifted inward by
/// half the padding (truncated); negative inside the left padding margin.
pub open spec fn spec_x_loc(s: AtlasSpec, x: int) -> int {
    x % (s.slot_glyph_size as int) - (s.padding as int) / 2
}

/// The slot-local y coordinate of atlas pixel row `y`, shifted inward by
/// half the padding (truncated); negative inside the top padding margin.
pub open spec fn spec_y_loc(s: AtlasSpec, y: int) -> int {
    y % (s.slot_glyph_size as int) - (s.padding as int) / 2
}

/// The coverage byte composited into all four channels of destination pixel
/// `(x, y)`, before any re-orientation: the glyph's bitmap byte where the
/// pixel lies inside the glyph's ink box, and 0 (transparent black) in the
/// padding margin, past the ink box, or in a slot with no glyph.
pub open spec fn spec_pixel_byte(tab: GlyphTable, s: AtlasSpec, x: int, y: int) -> u8 {
    let glyph_index = spec_glyph_index(s, x, y);
    if 32 < glyph_index < 256 {
        let x_loc = spec_x_loc(s, x);
        let y_loc = spec_y_loc(s, y);
        if x_loc < 0 || y_loc < 0 || x_loc >= tab.width@[glyph_index] || y_loc >= tab.rows@[glyph_index] {
            0u8
        } else {
            tab.buffer@[glyph_index].data@[y_loc * tab.width@[glyph_index] + x_loc]
        }
    } else {
        0u8
    }
}

/// The whole unflipped pixel buffer: byte `k` belongs to pixel number `k / 4`,
/// which sits at column `(k / 4) % width` of row `(k / 4) / width`.
pub open spec fn spec_atlas_buffer(tab: GlyphTable, s: AtlasSpec) -> Seq<u8> {
    Seq::new(
        (s.width * s.height * 4) as nat,
        |k: int| spec_pixel_byte(tab, s, (k / 4) % (s.width as int), (k / 4) / (s.width as int)),
    )
}

/// A full vertical flip of a row-major buffer with `4 * width` bytes per row:
/// byte `k` of the result comes from the mirrored row `height - 1 - k / (4 * width)`.
pub open spec fn spec_flip_vertical(buf: Seq<u8>, width: int, height: int) -> Seq<u8> {
    Seq::new(
        buf.len(),
        |k: int| buf[(height - 1 - k / (4 * width)) * (4 * width) + k % (4 * width)],
    )
}

/// The buffer as emitted for the configured origin: flipped vertically for a
/// bottom-left origin, as composited for a top-left origin.
pub open spec fn spec_composed_buffer(tab: GlyphTable, s: AtlasSpec) -> Seq<u8> {
    if s.origin == Origin::BottomLeft {
        spec_flip_vertical(spec_atlas_buffer(tab, s), s.width as int, s.height as int)
    } else {
        spec_atlas_buffer(tab, s)
    }
}

/// Composing the atlas is a pure function of the sampled glyph data and the
/// specification: two compositions from identical inputs yield byte-identical
/// pixel buffers.
pub proof fn lemma_compose_deterministic(
    tab: GlyphTable, s: AtlasSpec, first: Seq<u8>, second: Seq<u8>)
    requires
        first == spec_composed_buffer(tab, s),
        second == spec_composed_buffer(tab, s),
    ensures
        first == second,
{
}

/// The vertical flip is an involution: flipping a whole-atlas buffer twice
/// restores the original buffer.
pub proof fn lemma_flip_involution(buf: Seq<u8>, width: int, height: int)
    requires
        0 < width,
        0 <= height,
        buf.len() == width * height * 4,
    ensures
        spec_flip_vertical(spec_flip_vertical(buf, width, height), width, height) == buf,
{
    let stride = 4 * width;
    let once = spec_flip_vertical(buf, width, height);
    let twice = spec_flip_vertical(once, width, height);
    assert(buf.len() == height * stride) by (nonlinear_arith)
        requires buf.len() == width * height * 4, stride == 4 * width,
    ;
    assert forall|k: int| 0 <= k < buf.len() implies twice[k] == buf[k] by {
        let r = k / stride;
        let m = k % stride;
        vstd::arithmetic::div_mod::lemma_fundamental_div_mod(k, stride);
        assert(r < height) by (nonlinear_arith)
            requires
                k < height * stride,
                k == stride * r + m,
                0 <= m < stride,
                0 < stride,
        ;
        let mirrored = (height - 1 - r) * stride + m;
        assert(0 <= mirrored < height * stride) by (nonlinear_arith)
            requires
                mirrored == (height - 1 - r) * stride + m,
                0 <= height - 1 - r < height,
                0 <= m < stride,
        ;
        lemma_fundamental_div_mod_converse(mirrored, stride, height - 1 - r, m);
        assert(twice[k] == once[mirrored]);
        assert(once[mirrored] == buf[(height - 1 - (height - 1 - r)) * stride + m]);
        assert((height - 1 - (height - 1 - r)) * stride + m == r * stride + m)
            by (nonlinear_arith);
        assert(r * stride + m == k) by {
            vstd::arithmetic::div_mod::lemma_fundamental_div_mod(k, stride);
            assert(stride * r == r * stride) by (nonlinear_arith);
        }
    }
    assert(twice =~= buf);
}

/// Flip law: compositing with a bottom-left origin yields exactly the
/// vertical flip of the buffer composited with a top-left origin from the
/// same glyph data and otherwise identical specification, and flipping the
/// bottom-left buffer restores the top-left buffer.
pub proof fn lemma_flip_law(tab: GlyphTable, top: AtlasSpec, bottom: AtlasSpec)
    requires
        top.wf(),
        top.origin == Origin::TopLeft,
        bottom.origin == Origin::BottomLeft,
        bottom.width == top.width,
        bottom.height == top.height,
        bottom.rows == top.rows,
        bottom.columns == top.columns,
        bottom.padding == top.padding,
        bottom.slot_glyph_size == top.slot_glyph_size,
        bottom.glyph_size == top.glyph_size,
    ensures
        spec_composed_buffer(tab, bottom) == spec_flip_vertical(
            spec_composed_buffer(tab, top), top.width as int, top.height as int),
        spec_flip_vertical(
            spec_composed_buffer(tab, bottom), top.width as int, top.height as int)
            == spec_composed_buffer(tab, top),
{
    assert forall|k: int| 0 <= k < top.width * top.height * 4
        implies spec_atlas_buffer(tab, bottom)[k] == spec_atlas_buffer(tab, top)[k] by {
        let x = (k / 4) % (top.width as int);
        let y = (k / 4) / (top.width as int);
        assert(spec_pixel_byte(tab, bottom, x, y) == spec_pixel_byte(tab, top, x, y));
    }
    assert(spec_atlas_buffer(tab, bottom) =~= spec_atlas_buffer(tab, top));
    lemma_flip_involution(
        spec_atlas_buffer(tab, top), top.width as int, top.height as int);
}

/// Boundary convention: a pixel whose slot-local coordinate lands exactly on
/// the glyph's width or row count lies in the padding margin and composites
/// to transparent, not to a last ink column or row.
pub proof fn lemma_boundary_transparent(tab: GlyphTable, s: AtlasSpec, x: int, y: int)
    requires
        32 < spec_glyph_index(s, x, y) < 256,
        spec_x_loc(s, x) == tab.width@[spec_glyph_index(s, x, y)]
            || spec_y_loc(s, y) == tab.rows@[spec_glyph_index(s, x, y)],
    ensures
        spec_pixel_byte(tab, s, x, y) == 0,
{
}

/// Compute the coverage byte of one destination pixel.
pub fn composite_pixel(glyph_tab: &GlyphTable, atlas_spec: AtlasSpec, x: usize, y: usize)
    -> (p: u8)
    requires
        atlas_spec.wf(),
        glyph_tab.wf(),
        x < atlas_spec.width,
        y < atlas_spec.height,
    ensures
        p == spec_pixel_byte(*glyph_tab, atlas_spec, x as int, y as int),
{
    let slot = atlas_spec.slot_glyph_size;
    let col = x / slot;
    let row = y / slot;
    proof {
        assert(col < 16 && row < 16) by (nonlinear_arith)
            requires
                col == x as int / slot as int,
                row == y as int / slot as int,
                x < 16 * slot,
                y < 16 * slot,
                0 < slot,
        ;
    }
    let order = row * atlas_spec.columns + col;
    let glyph_index = order + 32;

    if glyph_index > 32 && glyph_index < 256 {
        let half_padding = atlas_spec.padding / 2;
        let x_loc = (x % slot) as i32 - half_padding as i32;
        let y_loc = (y % slot) as i32 - half_padding as i32;
        if x_loc < 0 || y_loc < 0 || x_loc >= glyph_tab.width[glyph_index]
            || y_loc >= glyph_tab.rows[glyph_index] {
            0
        } else {
            let glyph_width = glyph_tab.width[glyph_index];
            let image = &glyph_tab.buffer[glyph_index];
            let buffer_len = image.data.len();
            proof {
                let glyph_rows = glyph_tab.rows@[glyph_index as int] as int;
                let xl = x_loc as int;
                let yl = y_loc as int;
                let gw = glyph_width as int;
                assert(yl * gw + xl < glyph_rows * gw) by (nonlinear_arith)
                    requires
                        0 <= yl < glyph_rows,
                        0 <= xl < gw,
                ;
                assert(glyph_rows * gw <= buffer_len as int);
            }
            let byte_order_in_glyph = (y_loc as usize) * (glyph_width as usize) + (x_loc as usize);
            image.data[byte_order_in_glyph]
        }
    } else {
        0
    }
}

/// Build a vertically flipped copy of a row-major RGBA buffer.
pub fn flip_vertical(data: &Vec<u8>, width: usize, height: usize) -> (r: Vec<u8>)
    requires
        data@.len() == width * height * 4,
        4 * width <= usize::MAX,
    ensures
        r@ == spec_flip_vertical(data@, width as int, height as int),
{
    let ghost flipped = spec_flip_vertical(data@, width as int, height as int);
    let total = data.len();
    let width_in_bytes = 4 * width;
    proof {
        assert(height * (4 * width) == width * height * 4) by (nonlinear_arith);
    }
    let mut out: Vec<u8> = Vec::new();
    let mut row: usize = 0;
    while row < height
        invariant
            row <= height,
            width_in_bytes == 4 * width,
            total == data@.len(),
            data@.len() == width * height * 4,
            data@.len() == height * width_in_bytes,
            flipped == spec_flip_vertical(data@, width as int, height as int),
            out@.len() == row * width_in_bytes,
            forall|k: int| 0 <= k < out@.len() ==> #[trigger] out@[k] == flipped[k],
        decreases height - row,
    {
        let source_row = height - 1 - row;
        proof {
            assert(source_row * width_in_bytes + width_in_bytes <= height * width_in_bytes)
                by (nonlinear_arith)
                requires source_row as int + 1 <= height as int, 0 <= width_in_bytes as int,
            ;
            assert(row * width_in_bytes + width_in_bytes <= height * width_in_bytes)
                by (nonlinear_arith)
                requires row as int + 1 <= height as int, 0 <= width_in_bytes as int,
            ;
        }
        let base = source_row * width_in_bytes;
        let mut k: usize = 0;
        while k < width_in_bytes
            invariant
                k <= width_in_bytes,
                row < height,
                source_row == height - 1 - row,
                base == source_row * width_in_bytes,
                width_in_bytes == 4 * width,
                total == data@.len(),
                data@.len() == width * height * 4,
                data@.len() == height * width_in_bytes,
                base + width_in_bytes <= data@.len(),
                row * width_in_bytes + width_in_bytes <= data@.len(),
                flipped == spec_flip_vertical(data@, width as int, height as int),
                out@.len() == row * width_in_bytes + k,
                forall|j: int| 0 <= j < out@.len() ==> #[trigger] out@[j] == flipped[j],
            decreases width_in_bytes - k,
        {
            let b = data[base + k];
            out.push(b);
            proof {
                let j = row as int * width_in_bytes as int + k as int;
                lemma_fundamental_div_mod_converse(
                    j, width_in_bytes as int, row as int, k as int);
                assert(flipped[j] == data@[(height - 1 - row) as int * width_in_bytes as int + k as int]);
                assert(out@[j] == flipped[j]);
            }
            k = k + 1;
        }
        proof {
            assert(row * width_in_bytes + width_in_bytes == (row + 1) * width_in_bytes)
                by (nonlinear_arith);
        }
        row = row + 1;
    }
    proof {
        assert(out@ =~= flipped);
    }
    out
}

/// Pack the sampled glyph bitmaps into a single atlas image. Every pixel of
/// the destination is written: the coverage byte of the glyph whose slot the
/// pixel falls in (identically in all four channels), or transparent black.
/// For a bottom-left origin the buffer is then flipped vertically.
pub fn create_bitmap_image(glyph_tab: &GlyphTable, atlas_spec: AtlasSpec)
    -> (r: BitmapFontAtlasImage)
    requires
        atlas_spec.wf(),
        glyph_tab.wf(),
    ensures
        r.width == atlas_spec.width,
        r.height == atlas_spec.height,
        r.origin == atlas_spec.origin,
        r.data@ == spec_composed_buffer(*glyph_tab, atlas_spec),
        r.data@.len() == atlas_spec.width * atlas_spec.height * 4,
{
    let ghost unflipped = spec_atlas_buffer(*glyph_tab, atlas_spec);
    let width = atlas_spec.width;
    let height = atlas_spec.height;
    proof {
        assert(4 * (height * width) == width * height * 4) by (nonlinear_arith);
    }
    let mut atlas_buffer: Vec<u8> = Vec::new();
    let mut y: usize = 0;
    while y < height
        invariant
            y <= height,
            width == atlas_spec.width,
            height == atlas_spec.height,
            atlas_spec.wf(),
            glyph_tab.wf(),
            unflipped == spec_atlas_buffer(*glyph_tab, atlas_spec),
            4 * (height * width) == width * height * 4,
            atlas_buffer@.len() == 4 * (y * width),
            forall|j: int| 0 <= j < atlas_buffer@.len() ==> #[trigger] atlas_buffer@[j] == unflipped[j],
        decreases height - y,
    {
        proof {
            assert(4 * ((y + 1) * width) <= 4 * (height * width)) by (nonlinear_arith)
                requires y as int + 1 <= height as int, 0 <= width as int,
            ;
        }
        let mut x: usize = 0;
        while x < width
            invariant
                x <= width,
                y < height,
                width == atlas_spec.width,
                height == atlas_spec.height,
                atlas_spec.wf(),
                glyph_tab.wf(),
                unflipped == spec_atlas_buffer(*glyph_tab, atlas_spec),
                4 * (height * width) == width * height * 4,
                4 * ((y + 1) * width) <= 4 * (height * width),
                atlas_buffer@.len() == 4 * (y * width + x),
                forall|j: int| 0 <= j < atlas_buffer@.len() ==> #[trigger] atlas_buffer@[j] == unflipped[j],
            decreases width - x,
        {
            proof {
                assert(y * width + x < (y + 1) * width) by (nonlinear_arith)
                    requires 0 <= y as int, (x as int) < (width as int),
                ;
            }
            let p = composite_pixel(glyph_tab, atlas_spec, x, y);
            atlas_buffer.push(p);
            atlas_buffer.push(p);
            atlas_buffer.push(p);
            atlas_buffer.push(p);
            proof {
                let pixel = y as int * width as int + x as int;
                assert forall|j: int| 4 * pixel <= j < 4 * pixel + 4
                    implies unflipped[j] == p by {
                    lemma_fundamental_div_mod_converse(j, 4, pixel, j - 4 * pixel);
                    lemma_fundamental_div_mod_converse(
                        pixel, width as int, y as int, x as int);
                }
            }
            x = x + 1;
        }
        proof {
            assert(4 * (y * width + width) == 4 * ((y + 1) * width)) by (nonlinear_arith);
        }
        y = y + 1;
    }
    proof {
        assert(atlas_buffer@ =~= unflipped);
    }

    if atlas_spec.origin == Origin::BottomLeft {
        // Downstream consumers address a bottom-left origin image with row 0
        // at the bottom, so flip the buffer back over before emitting it.
        proof {
            assert(4 * width <= width * height * 4) by (nonlinear_arith)
                requires 1 <= height as int, 0 <= width as int,
            ;
        }
        let flipped = flip_vertical(&atlas_buffer, width, height);
        BitmapFontAtlasImage::new(flipped, width, height, atlas_spec.origin)
    } else {
        BitmapFontAtlasImage::new(atlas_buffer, width, height, atlas_spec.origin)
    }
}

} // verus!
