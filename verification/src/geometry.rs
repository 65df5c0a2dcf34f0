//! Atlas geometry: the grid dimensions of the atlas and of each glyph slot.

use vstd::prelude::*;
use vstd::string::StringSliceAdditionalSpecFns;

verus! {

/// The coordinate chart used to address pixels of the finished atlas image.
#[derive(Copy, Clone, Debug, PartialEq, Eq, Structural)]
pub enum Origin {
    TopLeft,
    BottomLeft,
}

/// Number of slot rows in the atlas grid. The grid is fixed at 16 x 16 so
/// that the 256 slots exactly cover one byte's worth of code points.
pub const ATLAS_ROWS: usize = 16;

/// Number of slot columns in the atlas grid.
pub const ATLAS_COLUMNS: usize = 16;

/// A description of the dimensions of the atlas and of the glyph slots in it.
/// Immutable once constructed.
#[derive(Copy, Clone, Debug)]
pub struct AtlasSpec {
    /// The origin and coordinate chart for the atlas image.
    pub origin: Origin,
    /// The width of the atlas in pixels.
    pub width: usize,
    /// The height of the atlas in pixels.
    pub height: usize,
    /// The number of slot rows in the atlas.
    pub rows: usize,
    /// The number of slot columns in the atlas.
    pub columns: usize,
    /// The amount of padding reserved for outlines in each slot, in pixels.
    pub padding: usize,
    /// The pixel size of one grid slot, padding included.
    pub slot_glyph_size: usize,
    /// The usable raster size of a glyph inside its slot.
    pub glyph_size: usize,
}

impl AtlasSpec {
    /// A well-formed specification: the grid is 16 x 16, the atlas dimensions
    /// are exactly the grid dimensions times the slot size, the usable glyph
    /// size is the slot size less the padding, and the whole pixel buffer
    /// (4 bytes per pixel) fits in a `usize` length.
    pub open spec fn wf(self) -> bool {
        &&& self.rows == ATLAS_ROWS
        &&& self.columns == ATLAS_COLUMNS
        &&& 0 < self.slot_glyph_size
        &&& self.padding <= self.slot_glyph_size
        &&& self.glyph_size == self.slot_glyph_size - self.padding
        &&& self.width == self.columns * self.slot_glyph_size
        &&& self.height == self.rows * self.slot_glyph_size
        &&& self.slot_glyph_size <= 0x800_0000
        &&& self.width * self.height * 4 <= usize::MAX
    }

    /// Plain constructor: records the given dimensions without validation.
    pub fn new(
        origin: Origin,
        width: usize, height: usize, rows: usize, columns: usize,
        padding: usize, slot_glyph_size: usize, glyph_size: usize) -> (r: AtlasSpec)
        ensures
            r == (AtlasSpec {
                origin, width, height, rows, columns, padding, slot_glyph_size, glyph_size,
            }),
    {
        AtlasSpec {
            origin,
            width,
            height,
            rows,
            columns,
            padding,
            slot_glyph_size,
            glyph_size,
        }
    }
}

/// A configuration error: the requested atlas parameters are invalid.
#[derive(Clone, Debug, PartialEq, Eq)]
pub enum OptError {
    /// The slot size was zero, so no glyph could be rastered at all.
    SlotGlyphSizeCannotBeZero(usize),
    /// The padding (first field) exceeds the slot size (second field), which
    /// would leave a negative usable glyph size.
    PaddingLargerThanSlotGlyphSize(usize, usize),
    /// The origin selection string matched neither supported origin.
    InvalidOrigin(String),
}

/// Derive a full atlas specification from the configurable parameters, with a
/// fixed 16 x 16 grid. Rejects a zero slot size and padding larger than the
/// slot size; any such rejection happens before any rasterization work.
pub fn build_atlas_spec(origin: Origin, slot_glyph_size: usize, padding: usize)
    -> (r: Result<AtlasSpec, OptError>)
    requires
        1024 * slot_glyph_size * slot_glyph_size <= usize::MAX,
    ensures
        r is Ok <==> 0 < slot_glyph_size && padding <= slot_glyph_size,
        slot_glyph_size == 0 ==>
            r == Err::<AtlasSpec, OptError>(OptError::SlotGlyphSizeCannotBeZero(slot_glyph_size)),
        0 < slot_glyph_size && padding > slot_glyph_size ==>
            r == Err::<AtlasSpec, OptError>(
                OptError::PaddingLargerThanSlotGlyphSize(padding, slot_glyph_size)),
        r matches Ok(s) ==> s.wf() && s.origin == origin
            && s.slot_glyph_size == slot_glyph_size && s.padding == padding,
{
    if slot_glyph_size == 0 {
        return Err(OptError::SlotGlyphSizeCannotBeZero(slot_glyph_size));
    }
    if padding > slot_glyph_size {
        return Err(OptError::PaddingLargerThanSlotGlyphSize(padding, slot_glyph_size));
    }
    proof {
        lemma_slot_size_bound(slot_glyph_size);
    }
    let width = ATLAS_COLUMNS * slot_glyph_size;
    let height = ATLAS_ROWS * slot_glyph_size;
    let glyph_size = slot_glyph_size - padding;
    let s = AtlasSpec {
        origin,
        width,
        height,
        rows: ATLAS_ROWS,
        columns: ATLAS_COLUMNS,
        padding,
        slot_glyph_size,
        glyph_size,
    };
    assert(s.width * s.height * 4 == 1024 * slot_glyph_size * slot_glyph_size) by (nonlinear_arith)
        requires
            s.width == 16 * slot_glyph_size,
            s.height == 16 * slot_glyph_size,
    ;
    Ok(s)
}

/// Helper bound: if the full atlas buffer length fits in a `usize`, the slot
/// size is at most 2^27.
proof fn lemma_slot_size_bound(slot_glyph_size: usize)
    requires
        1024 * slot_glyph_size * slot_glyph_size <= usize::MAX,
    ensures
        slot_glyph_size <= 0x800_0000,
{
    assert(slot_glyph_size <= 0x800_0000) by (nonlinear_arith)
        requires 1024 * slot_glyph_size * slot_glyph_size <= usize::MAX,
    {
        assert(usize::MAX <= 0xffff_ffff_ffff_ffff);
    }
}

/// Byte-for-byte string equality, decided on the UTF-8 encodings. Two string
/// slices have equal character views exactly when their encodings agree.
fn str_bytes_equal(a: &str, b: &str) -> (r: bool)
    ensures
        r <==> a@ == b@,
{
    let a_bytes = a.as_bytes();
    let b_bytes = b.as_bytes();
    if a_bytes.len() != b_bytes.len() {
        proof {
            if a@ == b@ {
                assert(a.spec_bytes() == b.spec_bytes());
            }
        }
        return false;
    }
    let n = a_bytes.len();
    let mut i: usize = 0;
    while i < n
        invariant
            i <= n,
            n == a_bytes@.len(),
            a_bytes@ == a.spec_bytes(),
            b_bytes@ == b.spec_bytes(),
            a_bytes@.len() == b_bytes@.len(),
            forall|k: int| 0 <= k < i ==> a_bytes@[k] == b_bytes@[k],
        decreases n - i,
    {
        if a_bytes[i] != b_bytes[i] {
            proof {
                if a@ == b@ {
                    assert(a.spec_bytes() == b.spec_bytes());
                }
            }
            return false;
        }
        i = i + 1;
    }
    proof {
        assert(a_bytes@ =~= b_bytes@);
        vstd::utf8::encode_utf8_decode_utf8(a@);
        vstd::utf8::encode_utf8_decode_utf8(b@);
        assert(vstd::utf8::decode_utf8(a.spec_bytes()) == a@);
        assert(vstd::utf8::decode_utf8(b.spec_bytes()) == b@);
    }
    true
}

/// Select the coordinate origin for the atlas from its command-line token.
/// Exactly the tokens `bottom-left` and `top-left` are accepted; any other
/// token is a configuration error that carries the token back.
pub fn parse_origin(st: &str) -> (r: Result<Origin, OptError>)
    ensures
        st@ == "bottom-left"@ ==> r == Ok::<Origin, OptError>(Origin::BottomLeft),
        st@ == "top-left"@ ==> r == Ok::<Origin, OptError>(Origin::TopLeft),
        st@ != "bottom-left"@ && st@ != "top-left"@
            ==> (r matches Err(OptError::InvalidOrigin(t)) && t@ == st@),
{
    proof {
        reveal_strlit("bottom-left");
        reveal_strlit("top-left");
        assert("bottom-left"@.len() != "top-left"@.len());
    }
    if str_bytes_equal(st, "bottom-left") {
        Ok(Origin::BottomLeft)
    } else if str_bytes_equal(st, "top-left") {
        Ok(Origin::TopLeft)
    } else {
        Err(OptError::InvalidOrigin(st.to_owned()))
    }
}

/// Every valid atlas specification covers the grid exactly: the atlas width
/// is the column count times the slot size, and the height is the row count
/// times the slot size.
pub proof fn lemma_atlas_geometry(s: AtlasSpec)
    requires
        s.wf(),
    ensures
        s.columns * s.slot_glyph_size == s.width,
        s.rows * s.slot_glyph_size == s.height,
{
}

} // verus!
