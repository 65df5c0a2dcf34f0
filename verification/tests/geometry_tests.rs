use fontgen::geometry::{AtlasSpec, Origin, OptError, build_atlas_spec, parse_origin};

#[test]
fn atlas_spec_new_records_fields() {
    let s = AtlasSpec::new(Origin::TopLeft, 1024, 1024, 16, 16, 0, 64, 64);
    assert_eq!(s.width, 1024);
    assert_eq!(s.height, 1024);
    assert_eq!(s.rows, 16);
    assert_eq!(s.columns, 16);
    assert_eq!(s.padding, 0);
    assert_eq!(s.slot_glyph_size, 64);
    assert_eq!(s.glyph_size, 64);
    assert_eq!(s.origin, Origin::TopLeft);
}

#[test]
fn default_slot_size_yields_1024_square_atlas() {
    let s = build_atlas_spec(Origin::BottomLeft, 64, 0).unwrap();
    assert_eq!(s.width, 1024);
    assert_eq!(s.height, 1024);
    assert_eq!(s.rows, 16);
    assert_eq!(s.columns, 16);
    assert_eq!(s.glyph_size, 64);
    assert_eq!(s.columns * s.slot_glyph_size, s.width);
    assert_eq!(s.rows * s.slot_glyph_size, s.height);
}

#[test]
fn geometry_covers_grid_for_various_sizes() {
    for slot in [1usize, 2, 3, 7, 48, 64, 100] {
        for padding in [0usize, 1] {
            if padding <= slot {
                let s = build_atlas_spec(Origin::TopLeft, slot, padding).unwrap();
                assert_eq!(s.columns * s.slot_glyph_size, s.width);
                assert_eq!(s.rows * s.slot_glyph_size, s.height);
                assert_eq!(s.glyph_size, slot - padding);
            }
        }
    }
}

#[test]
fn zero_slot_size_is_rejected() {
    let r = build_atlas_spec(Origin::BottomLeft, 0, 0);
    assert_eq!(r.unwrap_err(), OptError::SlotGlyphSizeCannotBeZero(0));
}

#[test]
fn padding_larger_than_slot_is_rejected_before_rasterization() {
    // The pipeline only accepts a validated specification, so an oversized
    // padding never reaches a rasterizer call.
    let r = build_atlas_spec(Origin::BottomLeft, 64, 65);
    assert_eq!(r.unwrap_err(), OptError::PaddingLargerThanSlotGlyphSize(65, 64));
}

#[test]
fn padding_equal_to_slot_is_accepted() {
    let s = build_atlas_spec(Origin::BottomLeft, 8, 8).unwrap();
    assert_eq!(s.glyph_size, 0);
}

#[test]
fn parse_origin_accepts_both_tokens() {
    assert_eq!(parse_origin("bottom-left").unwrap(), Origin::BottomLeft);
    assert_eq!(parse_origin("top-left").unwrap(), Origin::TopLeft);
}

#[test]
fn parse_origin_rejects_other_tokens() {
    let r = parse_origin("upside-down");
    assert_eq!(r.unwrap_err(), OptError::InvalidOrigin(String::from("upside-down")));
    let r = parse_origin("");
    assert_eq!(r.unwrap_err(), OptError::InvalidOrigin(String::new()));
    let r = parse_origin("BOTTOM-LEFT");
    assert!(matches!(r, Err(OptError::InvalidOrigin(_))));
}
