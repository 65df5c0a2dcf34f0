//! The glyph sampler: drives the external rasterizer over the supported code
//! point range and copies each produced bitmap into owned storage.
//!
//! The rasterizer keeps exactly one rendered glyph in a single internal
//! buffer, which the next call overwrites, so every bitmap is copied out
//! before the next code point is sampled. Nothing is assumed of what the
//! rasterizer draws; the sampler validates the returned dimensions and stores
//! the bytes as they came.

use vstd::prelude::*;
use crate::geometry::AtlasSpec;
use crate::glyph::{GlyphImage, GlyphTable};
use crate::glyph::glyph_wf;

verus! {

/// Declares freetype's `Face`, the handle to an opened typeface, so that it
/// can appear in signatures. The library never looks inside it.
#[verifier::external_type_specification]
#[verifier::external_body]
#[verifier::reject_recursive_types(BYTES)]
pub struct ExFace<BYTES>(freetype::face::Face<BYTES>);

/// Declares freetype's `Error` so that the wrappers can return it; every
/// failure is mapped to a `SampleTypefaceError` without reading it.
#[verifier::external_type_specification]
#[verifier::external_body]
pub struct ExFtError(freetype::error::Error);

/// A failure while sampling the typeface: which rasterization stage failed,
/// and at which code point.
#[derive(Copy, Clone, Debug, PartialEq, Eq, Structural)]
pub enum SampleTypefaceError {
    /// Setting the rasterizer's target pixel size failed; fields are the
    /// code point being processed (always 0, sizing happens before any
    /// glyph) and the requested pixel size.
    SetPixelSize(usize, usize),
    /// Loading the character for the code point failed.
    LoadCharacter(usize),
    /// Rendering the glyph for the code point failed.
    RenderCharacter(usize),
    /// Extracting the glyph's bounding box for the code point failed.
    GetGlyphImage(usize),
    /// The rasterizer reported bitmap dimensions that do not describe its
    /// own buffer (a negative count, or a width above the row stride).
    InvalidBitmap(usize),
}

/// Which sampling failures can be reported for a pass over a specification:
/// a sizing failure names the requested pixel size (with code point 0, since
/// sizing happens before any glyph), and every per-glyph failure names a
/// rastered code point.
pub open spec fn spec_sample_error_wf(e: SampleTypefaceError, s: AtlasSpec) -> bool {
    match e {
        SampleTypefaceError::SetPixelSize(code_point, pixels) =>
            code_point == 0 && pixels == s.glyph_size,
        SampleTypefaceError::LoadCharacter(code_point) => 33 <= code_point < 256,
        SampleTypefaceError::RenderCharacter(code_point) => 33 <= code_point < 256,
        SampleTypefaceError::GetGlyphImage(code_point) => 33 <= code_point < 256,
        SampleTypefaceError::InvalidBitmap(code_point) => 33 <= code_point < 256,
    }
}

/// Relies on freetype's `Face::set_pixel_sizes`: configures the rasterizer's
/// target raster height in pixels, width proportional. Nothing is promised
/// of the outcome beyond success or failure.
#[verifier::external_body]
fn ft_set_pixel_sizes(face: &freetype::face::Face, pixel_height: u32)
    -> (r: Result<(), freetype::error::Error>)
{
    face.set_pixel_sizes(0, pixel_height)
}

/// Relies on freetype's `Face::load_char` with the RENDER flag: loads the
/// glyph of the code point into the face's single glyph slot and renders it.
#[verifier::external_body]
fn ft_load_char(face: &freetype::face::Face, code_point: usize)
    -> (r: Result<(), freetype::error::Error>)
{
    face.load_char(code_point, freetype::face::LoadFlag::RENDER)
}

/// Relies on freetype's `GlyphSlot::render_glyph` in normal mode: draws the
/// loaded glyph as an anti-aliased coverage bitmap.
#[verifier::external_body]
fn ft_render_glyph(face: &freetype::face::Face)
    -> (r: Result<(), freetype::error::Error>)
{
    face.glyph().render_glyph(freetype::RenderMode::Normal)
}

/// Relies on freetype's `GlyphSlot::bitmap` and the `Bitmap` accessors
/// `rows`, `width`, `pitch` and `buffer`: `buffer` exposes the rasterizer's
/// internal bytes, `|pitch| * rows` of them, computing that product in `i32`.
/// The copy is therefore taken only when `rows` and `pitch` are non-negative
/// and their product fits an `i32`, and then holds exactly `rows * pitch`
/// bytes; outside that the dimensions are returned with no image.
#[verifier::external_body]
fn ft_copy_glyph_bitmap(face: &freetype::face::Face) -> (r: (i32, i32, i32, Option<GlyphImage>))
    ensures
        r.3 matches Some(image) ==>
            0 <= r.0 && 0 <= r.2 && image.data@.len() == r.0 * r.2,
        r.3 is None ==> r.0 < 0 || r.2 < 0 || r.0 * r.2 > i32::MAX,
{
    let bitmap = face.glyph().bitmap();
    let rows = bitmap.rows();
    let width = bitmap.width();
    let pitch = bitmap.pitch();
    // `buffer` sizes its slice as `pitch.abs() * rows` in `i32`, so it must
    // not be reached when that product overflows.
    let image = if 0 <= rows && 0 <= pitch && (rows as i64) * (pitch as i64) <= i32::MAX as i64 {
        Some(GlyphImage::new(bitmap.buffer().to_vec()))
    } else {
        None
    };
    (rows, width, pitch, image)
}

/// Relies on freetype's `GlyphSlot::get_glyph` and `Glyph::get_cbox` in
/// truncated mode: returns the minimum y of the glyph's tight bounding box,
/// in whole pixel units.
#[verifier::external_body]
fn ft_glyph_bbox_y_min(face: &freetype::face::Face)
    -> (r: Result<i64, freetype::error::Error>)
{
    let glyph = face.glyph().get_glyph()?;
    Ok(glyph.get_cbox(freetype::ffi::FT_GLYPH_BBOX_TRUNCATE).yMin as i64)
}

/// Sample one glyph image per code point in `33..=255` from the typeface.
///
/// Configures the rasterizer's raster height to the usable glyph size, then
/// for each code point in ascending order loads, renders and copies the
/// coverage bitmap and reads the vertical bearing. The first failure aborts
/// the whole pass, tagged with its stage and code point; no partial table is
/// returned. On success the table is well-formed: every rastered entry's
/// stored bitmap holds exactly the bytes its dimensions call for, and every
/// entry below code point 33 stays zero-sized and empty.
pub fn sample_typeface(face: &freetype::face::Face, atlas_spec: AtlasSpec)
    -> (r: Result<GlyphTable, SampleTypefaceError>)
    requires
        atlas_spec.wf(),
    ensures
        r matches Ok(tab) ==> tab.wf(),
        r matches Ok(tab) ==> forall|c: int| 0 <= c < 33
            ==> (#[trigger] tab.rows@[c]) == 0 && tab.width@[c] == 0 && tab.pitch@[c] == 0
                && tab.y_min@[c] == 0 && tab.buffer@[c].data@.len() == 0,
        r matches Err(e) ==> spec_sample_error_wf(e, atlas_spec),
{
    let mut glyph_rows: Vec<i32> = vec![0; 256];
    let mut glyph_width: Vec<i32> = vec![0; 256];
    let mut glyph_pitch: Vec<i32> = vec![0; 256];
    let mut glyph_ymin: Vec<i64> = vec![0; 256];
    let mut glyph_buffer: Vec<GlyphImage> = Vec::new();
    let mut j: usize = 0;
    while j < 256
        invariant
            j <= 256,
            glyph_buffer@.len() == j,
            forall|t: int| 0 <= t < j ==> (#[trigger] glyph_buffer@[t]).data@.len() == 0,
        decreases 256 - j,
    {
        glyph_buffer.push(GlyphImage::new(Vec::new()));
        j = j + 1;
    }

    if ft_set_pixel_sizes(face, atlas_spec.glyph_size as u32).is_err() {
        return Err(SampleTypefaceError::SetPixelSize(0, atlas_spec.glyph_size));
    }

    let mut i: usize = 33;
    while i < 256
        invariant
            33 <= i <= 256,
            glyph_rows@.len() == 256,
            glyph_width@.len() == 256,
            glyph_pitch@.len() == 256,
            glyph_ymin@.len() == 256,
            glyph_buffer@.len() == 256,
            forall|c: int| 33 <= c < i
                ==> glyph_wf(glyph_rows@[c], glyph_width@[c], glyph_pitch@[c],
                    #[trigger] glyph_buffer@[c]),
            forall|c: int| 0 <= c < 33
                ==> (#[trigger] glyph_rows@[c]) == 0 && glyph_width@[c] == 0
                    && glyph_pitch@[c] == 0 && glyph_ymin@[c] == 0
                    && glyph_buffer@[c].data@.len() == 0,
        decreases 256 - i,
    {
        if ft_load_char(face, i).is_err() {
            return Err(SampleTypefaceError::LoadCharacter(i));
        }
        if ft_render_glyph(face).is_err() {
            return Err(SampleTypefaceError::RenderCharacter(i));
        }

        let (rows_i, width_i, pitch_i, image_opt) = ft_copy_glyph_bitmap(face);
        let image_i = match image_opt {
            Some(image) => image,
            None => {
                return Err(SampleTypefaceError::InvalidBitmap(i));
            },
        };
        if width_i < 0 || width_i > pitch_i {
            return Err(SampleTypefaceError::InvalidBitmap(i));
        }
        proof {
            assert(rows_i * width_i <= rows_i * pitch_i) by (nonlinear_arith)
                requires
                    0 <= rows_i as int,
                    (width_i as int) <= (pitch_i as int),
            ;
        }
        glyph_rows.set(i, rows_i);
        glyph_width.set(i, width_i);
        glyph_pitch.set(i, pitch_i);
        glyph_buffer.set(i, image_i);

        let y_min_i = match ft_glyph_bbox_y_min(face) {
            Ok(val) => val,
            Err(_) => {
                return Err(SampleTypefaceError::GetGlyphImage(i));
            }
        };
        glyph_ymin.set(i, y_min_i);

        i = i + 1;
    }

    Ok(GlyphTable {
        rows: glyph_rows,
        width: glyph_width,
        pitch: glyph_pitch,
        y_min: glyph_ymin,
        buffer: glyph_buffer,
    })
}

} // verus!
