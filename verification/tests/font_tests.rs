use text_scroller::font::{get_char_moves, move_to_image, Image};

/// Every supported character's movement sequence has eight frames of five
/// row values, each value within the five significant bits.
#[test]
fn supported_moves_shape_and_range() {
    for code in 65u8..=90u8 {
        let moves = get_char_moves(code);
        assert_eq!(moves.len(), 8);
        for frame in moves.iter() {
            assert_eq!(frame.len(), 5);
            for &row in frame.iter() {
                assert!(row <= 31);
            }
        }
    }
}

/// The first and last frames of the letter A, masked to five bits.
#[test]
fn letter_a_moves() {
    let moves = get_char_moves(b'A');
    assert_eq!(moves[0], [0x0, 0x1, 0x1, 0x1, 0x1]);
    assert_eq!(moves[3], [0xC, 0x3, 0xF, 0x3, 0x3]);
    // 0xD8 -> 0x18, 0xDE -> 0x1E under the five-bit mask.
    assert_eq!(moves[4], [0x6, 0x18, 0x1E, 0x18, 0x18]);
    assert_eq!(moves[7], [0x10, 0x10, 0x10, 0x10, 0x10]);
}

/// Codes outside 'A'..='Z' all yield the same hollow-square fallback.
#[test]
fn unsupported_moves_share_fallback() {
    let fallback = get_char_moves(0);
    for &code in &[1u8, 32, 64, 91, 128, 200, 255] {
        assert_eq!(get_char_moves(code), fallback);
    }
    // The fallback's frames, masked to five bits: 0xDF -> 0x1F, 0xD1 -> 0x11.
    assert_eq!(fallback[0], [0x1, 0x1, 0x1, 0x1, 0x1]);
    assert_eq!(fallback[4], [0x1F, 0x11, 0x11, 0x11, 0x1F]);
}

/// The supported range is exactly 'A' (65) through 'Z' (90) inclusive.
#[test]
fn supported_range_boundaries() {
    let fallback = get_char_moves(0);
    assert_ne!(get_char_moves(65), fallback); // 'A' has its own entry
    assert_ne!(get_char_moves(90), fallback); // 'Z' has its own entry
    assert_eq!(get_char_moves(64), fallback); // '@' does not
    assert_eq!(get_char_moves(91), fallback); // '[' does not
    // 'Z' resolves to the last table entry, not the fallback.
    assert_eq!(get_char_moves(90)[0], [0x1, 0x0, 0x0, 0x0, 0x1]);
}

/// An all-zero raw frame converts to an all-off grid.
#[test]
fn convert_all_zero() {
    let img = move_to_image([0, 0, 0, 0, 0]);
    for row in img.rows.iter() {
        for &pixel in row.iter() {
            assert!(!pixel);
        }
    }
}

/// A raw row of 0b11111 converts to a row of five lit pixels.
#[test]
fn convert_full_row() {
    let img = move_to_image([0b11111, 0, 0, 0, 0]);
    assert_eq!(img.rows[0], [true, true, true, true, true]);
    assert_eq!(img.rows[1], [false, false, false, false, false]);
}

/// Bit 4 of a row byte is the leftmost display column, bit 0 the rightmost.
#[test]
fn convert_inverts_column_order() {
    let img = move_to_image([0x10, 0x01, 0x12, 0, 0]);
    assert_eq!(img.rows[0], [true, false, false, false, false]);
    assert_eq!(img.rows[1], [false, false, false, false, true]);
    assert_eq!(img.rows[2], [true, false, false, true, false]);
}

/// Conversion keeps the row order: row byte i becomes grid row i.
#[test]
fn convert_keeps_row_order() {
    let img = move_to_image([0x10, 0x08, 0x04, 0x02, 0x01]);
    for i in 0..5 {
        for j in 0..5 {
            assert_eq!(img.rows[i][j], i == j);
        }
    }
}

/// Converted frames compare by value.
#[test]
fn images_compare_by_value() {
    let a: Image = move_to_image([0x1F, 0, 0x15, 0, 0x1F]);
    let b: Image = move_to_image([0x1F, 0, 0x15, 0, 0x1F]);
    let c: Image = move_to_image([0x1F, 0, 0x15, 0, 0x1E]);
    assert_eq!(a, b);
    assert_ne!(a, c);
}
