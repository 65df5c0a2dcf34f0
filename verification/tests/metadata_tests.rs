use fontgen::geometry::{Origin, build_atlas_spec};
use fontgen::glyph::{GlyphImage, GlyphTable};
use fontgen::metadata::{Frac, GlyphMetadata, create_bitmap_metadata};

fn empty_table() -> GlyphTable {
    let mut buffer = Vec::new();
    for _ in 0..256 {
        buffer.push(GlyphImage::new(Vec::new()));
    }
    GlyphTable {
        rows: vec![0; 256],
        width: vec![0; 256],
        pitch: vec![0; 256],
        y_min: vec![0; 256],
        buffer,
    }
}

#[test]
fn glyph_metadata_new_records_fields() {
    let m = GlyphMetadata::new(
        65, 2, 1,
        Frac { num: 5, den: 4 }, Frac { num: 6, den: 4 },
        Frac { num: 4, den: 64 }, Frac { num: 8, den: 64 }, Frac { num: -3, den: 4 },
    );
    assert_eq!(m.code_point, 65);
    assert_eq!(m.row, 2);
    assert_eq!(m.column, 1);
    assert_eq!(m.width, Frac { num: 5, den: 4 });
    assert_eq!(m.height, Frac { num: 6, den: 4 });
    assert_eq!(m.x_min, Frac { num: 4, den: 64 });
    assert_eq!(m.y_min, Frac { num: 8, den: 64 });
    assert_eq!(m.y_offset, Frac { num: -3, den: 4 });
}

#[test]
fn space_entry_is_fixed_regardless_of_spec() {
    let table = empty_table();
    for (slot, padding) in [(64usize, 0usize), (48, 3), (4, 2), (1, 0)] {
        let s = build_atlas_spec(Origin::BottomLeft, slot, padding).unwrap();
        let md = create_bitmap_metadata(&table, s);
        let space = &md[0];
        assert_eq!(space.code_point, 32);
        assert_eq!(space.row, 0);
        assert_eq!(space.column, 0);
        assert_eq!(space.width, Frac { num: 1, den: 2 });
        assert_eq!(space.height, Frac { num: 1, den: 1 });
        assert_eq!(space.x_min, Frac { num: 0, den: 1 });
        assert_eq!(space.y_min, Frac { num: 0, den: 1 });
        assert_eq!(space.y_offset, Frac { num: 0, den: 1 });
    }
}

#[test]
fn exactly_one_entry_per_code_point() {
    let table = empty_table();
    let s = build_atlas_spec(Origin::BottomLeft, 64, 0).unwrap();
    let md = create_bitmap_metadata(&table, s);
    assert_eq!(md.len(), 224);
    for c in 32..256 {
        let hits: Vec<&GlyphMetadata> = md.iter().filter(|m| m.code_point == c).collect();
        assert_eq!(hits.len(), 1, "code point {} should have exactly one entry", c);
    }
}

#[test]
fn code_point_65_maps_to_row_2_column_1() {
    // order = 65 - 32 = 33, column = 33 % 16 = 1, row = 33 / 16 = 2.
    let table = empty_table();
    let s = build_atlas_spec(Origin::BottomLeft, 64, 0).unwrap();
    let md = create_bitmap_metadata(&table, s);
    let m = &md[65 - 32];
    assert_eq!(m.code_point, 65);
    assert_eq!(m.column, 1);
    assert_eq!(m.row, 2);
    assert_eq!(m.x_min, Frac { num: 64, den: 1024 });
    assert_eq!(m.y_min, Frac { num: 128, den: 1024 });
}

#[test]
fn metadata_formulas_are_exact() {
    let mut table = empty_table();
    table.rows[65] = 2;
    table.width[65] = 3;
    table.pitch[65] = 3;
    table.y_min[65] = -1;
    table.buffer[65] = GlyphImage::new(vec![0; 6]);
    let s = build_atlas_spec(Origin::BottomLeft, 4, 2).unwrap();
    let md = create_bitmap_metadata(&table, s);
    let m = &md[65 - 32];
    // width = (bitmap width + padding) / slot, height likewise.
    assert_eq!(m.width, Frac { num: 5, den: 4 });
    assert_eq!(m.height, Frac { num: 4, den: 4 });
    // x_min = (column * slot) / atlas width, y_min = (row * slot) / atlas height.
    assert_eq!(m.x_min, Frac { num: 4, den: 64 });
    assert_eq!(m.y_min, Frac { num: 8, den: 64 });
    // y_offset = (vertical bearing - padding) / slot.
    assert_eq!(m.y_offset, Frac { num: -3, den: 4 });
}

#[test]
fn normalized_corners_stay_inside_unit_interval() {
    let table = empty_table();
    let s = build_atlas_spec(Origin::BottomLeft, 7, 1).unwrap();
    let md = create_bitmap_metadata(&table, s);
    for m in md.iter().skip(1) {
        assert!(m.x_min.num >= 0 && (m.x_min.num as u128) < m.x_min.den as u128);
        assert!(m.y_min.num >= 0 && (m.y_min.num as u128) < m.y_min.den as u128);
    }
}
