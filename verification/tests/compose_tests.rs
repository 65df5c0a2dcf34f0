use fontgen::geometry::{Origin, build_atlas_spec};
use fontgen::glyph::{GlyphImage, GlyphTable};
use fontgen::compose::{composite_pixel, create_bitmap_image, flip_vertical};

fn empty_table() -> GlyphTable {
    let mut buffer = Vec::new();
    for _ in 0..256 {
        buffer.push(GlyphImage::new(Vec::new()));
    }
    GlyphTable {
        rows: vec![0; 256],
        width: vec![0; 256],
        pitch: vec![0; 256],
        y_min: vec![0; 256],
        buffer,
    }
}

/// One distinct single-byte glyph per code point, in a 1-pixel slot grid.
fn one_pixel_table() -> GlyphTable {
    let mut table = empty_table();
    for c in 33..256 {
        table.rows[c] = 1;
        table.width[c] = 1;
        table.pitch[c] = 1;
        table.buffer[c] = GlyphImage::new(vec![c as u8]);
    }
    table
}

#[test]
fn one_pixel_slots_place_each_glyph_byte() {
    let table = one_pixel_table();
    let s = build_atlas_spec(Origin::TopLeft, 1, 0).unwrap();
    let image = create_bitmap_image(&table, s);
    assert_eq!(image.width, 16);
    assert_eq!(image.height, 16);
    assert_eq!(image.origin, Origin::TopLeft);
    assert_eq!(image.data.len(), 16 * 16 * 4);
    for y in 0..16usize {
        for x in 0..16usize {
            let order = y * 16 + x;
            let glyph_index = order + 32;
            let expected = if glyph_index > 32 && glyph_index < 256 {
                glyph_index as u8
            } else {
                0
            };
            let base = 4 * (y * 16 + x);
            for k in 0..4 {
                assert_eq!(image.data[base + k], expected, "pixel ({}, {})", x, y);
            }
        }
    }
}

#[test]
fn all_four_channels_carry_the_coverage_byte() {
    let table = one_pixel_table();
    let s = build_atlas_spec(Origin::BottomLeft, 1, 0).unwrap();
    let image = create_bitmap_image(&table, s);
    for pixel in image.data.chunks(4) {
        assert_eq!(pixel[0], pixel[1]);
        assert_eq!(pixel[0], pixel[2]);
        assert_eq!(pixel[0], pixel[3]);
    }
}

#[test]
fn slot_with_no_glyph_is_transparent_black() {
    let table = one_pixel_table();
    let s = build_atlas_spec(Origin::TopLeft, 1, 0).unwrap();
    let image = create_bitmap_image(&table, s);
    // The very first slot belongs to code point 32, which is never rastered.
    assert_eq!(&image.data[0..4], &[0, 0, 0, 0]);
}

#[test]
fn composite_pixel_boundary_is_transparent() {
    // Slot size 4, no padding: a glyph 2 wide and 2 tall covers local
    // coordinates 0 and 1; local coordinate exactly 2 is padding margin.
    let mut table = empty_table();
    table.rows[33] = 2;
    table.width[33] = 2;
    table.pitch[33] = 2;
    table.buffer[33] = GlyphImage::new(vec![10, 20, 30, 40]);
    let s = build_atlas_spec(Origin::TopLeft, 4, 0).unwrap();
    // Code point 33 sits at grid (row 0, column 1), so its slot starts at x = 4.
    assert_eq!(composite_pixel(&table, s, 4, 0), 10);
    assert_eq!(composite_pixel(&table, s, 5, 0), 20);
    assert_eq!(composite_pixel(&table, s, 4, 1), 30);
    assert_eq!(composite_pixel(&table, s, 5, 1), 40);
    // x_loc == glyph width and y_loc == glyph rows are transparent, not ink.
    assert_eq!(composite_pixel(&table, s, 6, 0), 0);
    assert_eq!(composite_pixel(&table, s, 4, 2), 0);
    assert_eq!(composite_pixel(&table, s, 6, 2), 0);
}

#[test]
fn odd_padding_shifts_by_truncated_half() {
    // Slot size 5, padding 3: the inward shift is 3 / 2 = 1 pixel.
    let mut table = empty_table();
    table.rows[33] = 1;
    table.width[33] = 1;
    table.pitch[33] = 1;
    table.buffer[33] = GlyphImage::new(vec![200]);
    let s = build_atlas_spec(Origin::TopLeft, 5, 3).unwrap();
    // Slot of code point 33 starts at x = 5; its single ink pixel sits at
    // local (1, 1), i.e. absolute (6, 1).
    assert_eq!(composite_pixel(&table, s, 5, 1), 0);
    assert_eq!(composite_pixel(&table, s, 6, 0), 0);
    assert_eq!(composite_pixel(&table, s, 6, 1), 200);
    assert_eq!(composite_pixel(&table, s, 7, 1), 0);
}

#[test]
fn composing_twice_is_byte_identical() {
    let table = one_pixel_table();
    let s = build_atlas_spec(Origin::BottomLeft, 2, 1).unwrap();
    let first = create_bitmap_image(&table, s);
    let second = create_bitmap_image(&table, s);
    assert_eq!(first.data, second.data);
}

#[test]
fn bottom_left_image_is_the_vertical_flip_of_top_left() {
    let table = one_pixel_table();
    let top = build_atlas_spec(Origin::TopLeft, 3, 1).unwrap();
    let bottom = build_atlas_spec(Origin::BottomLeft, 3, 1).unwrap();
    let top_image = create_bitmap_image(&table, top);
    let bottom_image = create_bitmap_image(&table, bottom);
    let flipped = flip_vertical(&top_image.data, top.width, top.height);
    assert_eq!(flipped, bottom_image.data);
}

#[test]
fn flipping_twice_restores_the_buffer() {
    let table = one_pixel_table();
    let top = build_atlas_spec(Origin::TopLeft, 2, 0).unwrap();
    let image = create_bitmap_image(&table, top);
    let once = flip_vertical(&image.data, top.width, top.height);
    let twice = flip_vertical(&once, top.width, top.height);
    assert_eq!(twice, image.data);
}

#[test]
fn flip_vertical_swaps_rows() {
    // A 1 x 2 pixel image: row 0 holds pixel A, row 1 holds pixel B.
    let data = vec![1, 2, 3, 4, 5, 6, 7, 8];
    let flipped = flip_vertical(&data, 1, 2);
    assert_eq!(flipped, vec![5, 6, 7, 8, 1, 2, 3, 4]);
}

#[test]
fn glyph_image_new_keeps_the_bytes() {
    let image = GlyphImage::new(vec![9, 8, 7]);
    assert_eq!(image.data, vec![9, 8, 7]);
}
