use sprite_engine::{SpriteSheet, SpriteSheetError};

#[test]
fn atlas_64x64_with_32x32_cells_has_four_rects() {
    let sheet = SpriteSheet::from_grid(7, 64, 64, 32, 32).unwrap();
    assert_eq!(sheet.len(), 4);
    assert_eq!(sheet.get_texture(), 7);
    for i in 0..4 {
        let uv = sheet.get_uv(i);
        assert!(uv.u_den > 0 && uv.v_den > 0);
        assert!(uv.u_min_num <= uv.u_den);
        assert!(uv.u_max_num <= uv.u_den);
        assert!(uv.v_min_num <= uv.v_den);
        assert!(uv.v_max_num <= uv.v_den);
    }
}

#[test]
fn atlas_cells_are_row_major_with_inverted_v() {
    let sheet = SpriteSheet::from_grid(1, 64, 32, 32, 16).unwrap();
    // 2 columns, 2 rows.
    assert_eq!(sheet.len(), 4);
    // Cell (row 0, col 0): u in [0/64, 32/64], v_min = 16/32, v_max = 0/32.
    let uv = sheet.get_uv(0);
    assert_eq!(
        (uv.u_min_num, uv.u_max_num, uv.u_den, uv.v_min_num, uv.v_max_num, uv.v_den),
        (0, 32, 64, 16, 0, 32)
    );
    // Cell (row 0, col 1).
    let uv = sheet.get_uv(1);
    assert_eq!(
        (uv.u_min_num, uv.u_max_num, uv.u_den, uv.v_min_num, uv.v_max_num, uv.v_den),
        (32, 64, 64, 16, 0, 32)
    );
    // Cell (row 1, col 0): v_min = 32/32, v_max = 16/32.
    let uv = sheet.get_uv(2);
    assert_eq!(
        (uv.u_min_num, uv.u_max_num, uv.u_den, uv.v_min_num, uv.v_max_num, uv.v_den),
        (0, 32, 64, 32, 16, 32)
    );
    // Cell (row 1, col 1).
    let uv = sheet.get_uv(3);
    assert_eq!(
        (uv.u_min_num, uv.u_max_num, uv.u_den, uv.v_min_num, uv.v_max_num, uv.v_den),
        (32, 64, 64, 32, 16, 32)
    );
}

#[test]
fn atlas_rejects_sizes_that_do_not_divide() {
    let r = SpriteSheet::from_grid(1, 64, 64, 30, 32);
    assert!(matches!(r, Err(SpriteSheetError::InvalidSpriteDimensions(_))));
    let r = SpriteSheet::from_grid(1, 64, 64, 32, 30);
    assert!(matches!(r, Err(SpriteSheetError::InvalidSpriteDimensions(_))));
}

#[test]
fn atlas_rejects_zero_cell_sizes() {
    let r = SpriteSheet::from_grid(1, 64, 64, 0, 32);
    assert!(matches!(r, Err(SpriteSheetError::InvalidSpriteDimensions(_))));
    let r = SpriteSheet::from_grid(1, 64, 64, 32, 0);
    assert!(matches!(r, Err(SpriteSheetError::InvalidSpriteDimensions(_))));
}

#[test]
fn solid_color_atlas_is_one_full_rect() {
    let sheet = SpriteSheet::from_color(9);
    assert_eq!(sheet.len(), 1);
    assert_eq!(sheet.get_texture(), 9);
    let uv = sheet.get_uv(0);
    assert_eq!(
        (uv.u_min_num, uv.v_min_num, uv.u_max_num, uv.v_max_num, uv.u_den, uv.v_den),
        (0, 0, 1, 1, 1, 1)
    );
}
