//! Per-character glyph movement data and frame conversion.
//!
//! Each supported character has a movement sequence of exactly eight raw
//! frames; a raw frame is five row bytes whose five low bits encode the row's
//! pixels. The movement table's bit order within a row is the opposite of the
//! renderer's column order, so [`move_to_image`] inverts it: bit 4 of a row
//! byte is the leftmost display column and bit 0 the rightmost.

use vstd::prelude::*;

verus! {

/// First supported character code (ASCII 'A').
pub const PRINTABLE_START: u8 = 65;

/// Last supported character code (ASCII 'Z').
pub const PRINTABLE_END: u8 = 90;

/// Whether a character code has a movement sequence of its own; codes
/// outside this range fall back to the hollow-square sequence.
pub open spec fn supported(code: u8) -> bool {
    PRINTABLE_START <= code <= PRINTABLE_END
}

/// The five significant bits of a packed row byte.
pub open spec fn mask5(byte: u8) -> u8 {
    byte & 0x1F
}

/// A renderer-ready frame: a 5x5 grid of on/off pixels, one inner array per
/// display row, leftmost column first within each row.
#[derive(Clone, Copy, PartialEq, Eq, Debug)]
pub struct Image {
    pub rows: [[bool; 5]; 5],
}

impl View for Image {
    type V = Seq<Seq<bool>>;

    open spec fn view(&self) -> Seq<Seq<bool>> {
        Seq::new(5, |i: int| Seq::new(5, |j: int| self.rows[i][j]))
    }
}

/// Whether the pixel in display column `col` of a packed row byte is lit:
/// bit 4 is the leftmost column and bit 0 the rightmost.
pub open spec fn spec_bit(byte: u8, col: int) -> bool {
    if col == 0 {
        byte & 0x10 != 0
    } else if col == 1 {
        byte & 0x08 != 0
    } else if col == 2 {
        byte & 0x04 != 0
    } else if col == 3 {
        byte & 0x02 != 0
    } else {
        byte & 0x01 != 0
    }
}

/// The 5x5 grid that a raw frame of five packed row bytes converts to.
pub open spec fn spec_image(raw: Seq<u8>) -> Seq<Seq<bool>> {
    Seq::new(5, |i: int| Seq::new(5, |j: int| spec_bit(raw[i], j)))
}

/// Every raw frame converts to a grid of exactly five rows of five pixels.
pub proof fn lemma_image_shape(raw: Seq<u8>)
    ensures
        spec_image(raw).len() == 5,
        forall|i: int| 0 <= i < 5 ==> #[trigger] spec_image(raw)[i].len() == 5,
{
}

/// Unpacks one row byte into its five pixels, leftmost column first.
fn row_bits(byte: u8) -> (row: [bool; 5])
    ensures
        forall|j: int| 0 <= j < 5 ==> row[j] == spec_bit(byte, j),
{
    [
        byte & 0x10 != 0,
        byte & 0x08 != 0,
        byte & 0x04 != 0,
        byte & 0x02 != 0,
        byte & 0x01 != 0,
    ]
}

/// Converts one raw frame (five packed row bytes) into a renderer-ready
/// pixel grid. Row order is unchanged; within each row, the byte's bit
/// order is inverted to the renderer's column order.
pub fn move_to_image(data: [u8; 5]) -> (img: Image)
    ensures
        img@ == spec_image(data@),
{
    let img = Image {
        rows: [
            row_bits(data[0]),
            row_bits(data[1]),
            row_bits(data[2]),
            row_bits(data[3]),
            row_bits(data[4]),
        ],
    };
    proof {
        assert(img@ =~~= spec_image(data@));
    }
    img
}

/// Hollow-square movement sequence, shown in place of any unsupported
/// character: a square outline that slides in from the right and out to
/// the left over eight steps.
pub const UNKNOWN_CHARACTER: [[u8; 5]; 8] = [
    [0x1, 0x1, 0x1, 0x1, 0x1],
    [0x9, 0x8, 0x8, 0x8, 0x9],
    [0xD, 0x4, 0x4, 0x4, 0xD],
    [0xF, 0x2, 0x2, 0x2, 0xF],
    [0xDF, 0xD1, 0xD1, 0xD1, 0xDF],
    [0xDE, 0x8, 0x8, 0x8, 0xDE],
    [0xD6, 0x4, 0x4, 0x4, 0xD6],
    [0xD2, 0x2, 0x2, 0x2, 0xD2],
];

/// The raw movement table entry for a character code: the character's own
/// entry when it is supported, the hollow square otherwise. Row bytes may
/// carry junk in their three high bits; [`spec_char_moves`] masks them off.
pub closed spec fn raw_char_moves(code: u8) -> [[u8; 5]; 8] {
    if supported(code) {
        CHARS_MOVEMENTS[code - PRINTABLE_START]
    } else {
        UNKNOWN_CHARACTER
    }
}

/// The movement sequence for a character code: eight raw frames of five row
/// bytes each, every byte reduced to its five significant bits.
pub open spec fn spec_char_moves(code: u8) -> Seq<Seq<u8>> {
    Seq::new(8, |i: int| Seq::new(5, |j: int| mask5(raw_char_moves(code)[i][j])))
}

/// The eight renderer-ready grids that one character contributes to a
/// scroll sequence.
pub open spec fn frames_of_char(code: u8) -> Seq<Seq<Seq<bool>>> {
    Seq::new(8, |i: int| spec_image(spec_char_moves(code)[i]))
}

/// A masked row byte uses only the five low bits.
pub proof fn lemma_mask5_bound(byte: u8)
    ensures
        mask5(byte) <= 31,
{
    assert(byte & 0x1F <= 31) by (bit_vector);
}

/// Every movement sequence has exactly eight frames of five row values
/// each, and every row value lies in `[0, 31]`.
pub proof fn lemma_char_moves_shape(code: u8)
    ensures
        spec_char_moves(code).len() == 8,
        forall|i: int| 0 <= i < 8 ==> #[trigger] spec_char_moves(code)[i].len() == 5,
        forall|i: int, j: int| 0 <= i < 8 && 0 <= j < 5 ==> #[trigger] spec_char_moves(code)[i][j] <= 31,
{
    assert forall|i: int, j: int| 0 <= i < 8 && 0 <= j < 5 implies #[trigger] spec_char_moves(
        code,
    )[i][j] <= 31 by {
        lemma_mask5_bound(raw_char_moves(code)[i][j]);
    }
}

/// All unsupported character codes share one fallback movement sequence,
/// value for value.
pub proof fn lemma_fallback_shared(a: u8, b: u8)
    requires
        !supported(a),
        !supported(b),
    ensures
        spec_char_moves(a) == spec_char_moves(b),
{
    assert(spec_char_moves(a) =~~= spec_char_moves(b));
}

/// Returns the movement sequence of a character code: eight frames of five
/// row bytes, each reduced to its five significant bits. A code outside the
/// supported range yields the shared hollow-square fallback.
#[verifier::loop_isolation(false)]
pub fn get_char_moves(code: u8) -> (moves: [[u8; 5]; 8])
    ensures
        forall|i: int, j: int| 0 <= i < 8 && 0 <= j < 5 ==> moves[i][j] == spec_char_moves(
            code,
        )[i][j],
        forall|i: int, j: int| 0 <= i < 8 && 0 <= j < 5 ==> moves[i][j] <= 31,
{
    let raw: [[u8; 5]; 8] = if PRINTABLE_START <= code && code <= PRINTABLE_END {
        CHARS_MOVEMENTS[(code - PRINTABLE_START) as usize]
    } else {
        UNKNOWN_CHARACTER
    };
    let mut moves: [[u8; 5]; 8] = [[0u8; 5]; 8];
    let mut i: usize = 0;
    while i < 8
        invariant
            raw == raw_char_moves(code),
            i <= 8,
            forall|a: int, b: int| 0 <= a < i && 0 <= b < 5 ==> moves[a][b] == mask5(raw[a][b]),
        decreases 8 - i,
    {
        let mut row: [u8; 5] = [0u8; 5];
        let mut j: usize = 0;
        while j < 5
            invariant
                j <= 5,
                forall|b: int| 0 <= b < j ==> row[b] == mask5(raw[i as int][b]),
            decreases 5 - j,
        {
            row[j] = raw[i][j] & 0x1F;
            j += 1;
        }
        moves[i] = row;
        i += 1;
    }
    proof {
        assert forall|i2: int, j2: int| 0 <= i2 < 8 && 0 <= j2 < 5 implies moves[i2][j2] <= 31 by {
            lemma_mask5_bound(raw[i2][j2]);
        }
    }
    moves
}

/// Movement sequences for the supported characters, 'A' through 'Z' in
/// order. Each entry is eight frames of five packed row bytes, sliding the
/// glyph in from the right edge and out past the left edge.
pub const CHARS_MOVEMENTS: [[[u8; 5]; 8]; 26] = [
    // A
    [
        [0x0, 0x1, 0x1, 0x1, 0x1],
        [0x1, 0x8, 0x9, 0x8, 0x8],
        [0x9, 0x4, 0xD, 0x4, 0x4],
        [0xC, 0x3, 0xF, 0x3, 0x3],
        [0x6, 0xD8, 0xDE, 0xD8, 0xD8],
        [0xD2, 0x4, 0xD6, 0x4, 0x4],
        [0xD0, 0x2, 0xD2, 0x2, 0x2],
        [0xD0, 0xD0, 0xD0, 0xD0, 0xD0],
    ],
    // B
    [
        [0x1, 0x1, 0x1, 0x1, 0x1],
        [0x9, 0x8, 0x9, 0x8, 0x9],
        [0xD, 0x4, 0xD, 0x4, 0xD],
        [0xE, 0x3, 0xE, 0x3, 0xE],
        [0xD6, 0xD8, 0xD6, 0xD8, 0xD6],
        [0xD2, 0x4, 0xD2, 0x4, 0xD2],
        [0xD0, 0x2, 0xD0, 0x2, 0xD0],
        [0x0, 0xD0, 0x0, 0xD0, 0x0],
    ],
    // C
    [
        [0x1, 0x1, 0x1, 0x1, 0x1],
        [0x9, 0x8, 0x8, 0x8, 0x9],
        [0xD, 0x4, 0x4, 0x4, 0xD],
        [0xF, 0x2, 0x2, 0x2, 0xF],
        [0xDE, 0xD0, 0xD0, 0xD0, 0xDE],
        [0xD6, 0x0, 0x0, 0x0, 0xD6],
        [0xD2, 0x0, 0x0, 0x0, 0xD2],
        [0xD0, 0x0, 0x0, 0x0, 0xD0],
    ],
    // D
    [
        [0x1, 0x1, 0x1, 0x1, 0x1],
        [0x9, 0x8, 0x8, 0x8, 0x9],
        [0xC, 0x5, 0x4, 0x5, 0xC],
        [0x6, 0xA, 0x3, 0xA, 0x6],
        [0xD2, 0xD4, 0xD8, 0xD4, 0xD2],
        [0xD0, 0x2, 0x4, 0x2, 0xD0],
        [0x0, 0xD0, 0x2, 0xD0, 0x0],
        [0x0, 0x0, 0xD0, 0x0, 0x0],
    ],
    // E
    [
        [0x1, 0x1, 0x1, 0x1, 0x1],
        [0x9, 0x8, 0x9, 0x8, 0x9],
        [0xD, 0x4, 0xD, 0x4, 0xD],
        [0xF, 0x2, 0xF, 0x2, 0xF],
        [0xDE, 0xD0, 0xDE, 0xD0, 0xDE],
        [0xD6, 0x0, 0xD6, 0x0, 0xD6],
        [0xD2, 0x0, 0xD2, 0x0, 0xD2],
        [0xD0, 0x0, 0xD0, 0x0, 0xD0],
    ],
    // F
    [
        [0x1, 0x1, 0x1, 0x1, 0x1],
        [0x9, 0x8, 0x9, 0x8, 0x8],
        [0xD, 0x4, 0xD, 0x4, 0x4],
        [0xF, 0x2, 0xF, 0x2, 0x2],
        [0xDE, 0xD0, 0xDE, 0xD0, 0xD0],
        [0xD6, 0x0, 0xD6, 0x0, 0x0],
        [0xD2, 0x0, 0xD2, 0x0, 0x0],
        [0xD0, 0x0, 0xD0, 0x0, 0x0],
    ],
    // G
    [
        [0x1, 0x1, 0x1, 0x1, 0x1],
        [0x9, 0x8, 0x8, 0x8, 0x9],
        [0xD, 0x4, 0x5, 0x4, 0xD],
        [0xF, 0x2, 0xB, 0x3, 0xF],
        [0xDE, 0xD0, 0xDC, 0xD8, 0xDE],
        [0xD6, 0x0, 0x6, 0x4, 0xD6],
        [0xD2, 0x0, 0xD2, 0x2, 0xD2],
        [0xD0, 0x0, 0xD0, 0xD0, 0xD0],
    ],
    // H
    [
        [0x1, 0x1, 0x1, 0x1, 0x1],
        [0x8, 0x8, 0x8, 0x8, 0x8],
        [0x4, 0x4, 0xD, 0x4, 0x4],
        [0x3, 0x3, 0xF, 0x3, 0x3],
        [0xD8, 0xD8, 0xDE, 0xD8, 0xD8],
        [0x4, 0x4, 0xD6, 0x4, 0x4],
        [0x2, 0x2, 0xD2, 0x2, 0x2],
        [0xD0, 0xD0, 0xD0, 0xD0, 0xD0],
    ],
    // I
    [
        [0x0, 0x0, 0x0, 0x0, 0x0],
        [0x1, 0x0, 0x0, 0x0, 0x1],
        [0x9, 0x1, 0x1, 0x1, 0x9],
        [0xD, 0x8, 0x8, 0x8, 0xD],
        [0xE, 0x4, 0x4, 0x4, 0xE],
        [0xD6, 0x2, 0x2, 0x2, 0xD6],
        [0x2, 0xD0, 0xD0, 0xD0, 0x2],
        [0xD0, 0x0, 0x0, 0x0, 0xD0],
    ],
    // J
    [
        [0x0, 0x0, 0x1, 0x1, 0x1],
        [0x1, 0x0, 0x8, 0x8, 0x9],
        [0x9, 0x1, 0x5, 0x5, 0xD],
        [0xD, 0x8, 0xA, 0xA, 0xE],
        [0xE, 0x4, 0xD4, 0xD4, 0xD6],
        [0xD6, 0x2, 0x2, 0x2, 0xD2],
        [0xD2, 0xD0, 0xD0, 0xD0, 0xD0],
        [0xD0, 0x0, 0x0, 0x0, 0x0],
    ],
    // K
    [
        [0x1, 0x1, 0x1, 0x1, 0x1],
        [0x8, 0x8, 0x9, 0x8, 0x8],
        [0x4, 0x5, 0xC, 0x5, 0x4],
        [0x3, 0xA, 0x6, 0xA, 0x3],
        [0xD8, 0xD4, 0xD2, 0xD4, 0xD8],
        [0x4, 0x2, 0xD0, 0x2, 0x4],
        [0x2, 0xD0, 0x0, 0xD0, 0x2],
        [0xD0, 0x0, 0x0, 0x0, 0xD0],
    ],
    // L
    [
        [0x1, 0x1, 0x1, 0x1, 0x1],
        [0x8, 0x8, 0x8, 0x8, 0x9],
        [0x4, 0x4, 0x4, 0x4, 0xD],
        [0x2, 0x2, 0x2, 0x2, 0xF],
        [0xD0, 0xD0, 0xD0, 0xD0, 0xDE],
        [0x0, 0x0, 0x0, 0x0, 0xD6],
        [0x0, 0x0, 0x0, 0x0, 0xD2],
        [0x0, 0x0, 0x0, 0x0, 0xD0],
    ],
    // M
    [
        [0x1, 0x1, 0x1, 0x1, 0x1],
        [0x8, 0x9, 0x9, 0x8, 0x8],
        [0x4, 0xD, 0xD, 0x4, 0x4],
        [0x3, 0xF, 0xF, 0x3, 0x3],
        [0xD8, 0xDE, 0xDE, 0xD8, 0xD8],
        [0x4, 0xD6, 0xD6, 0x4, 0x4],
        [0x2, 0xD2, 0xD2, 0x2, 0x2],
        [0xD0, 0xD0, 0xD0, 0xD0, 0xD0],
    ],
    // N
    [
        [0x1, 0x1, 0x1, 0x1, 0x1],
        [0x8, 0x9, 0x8, 0x8, 0x8],
        [0x4, 0xC, 0x4, 0x5, 0x4],
        [0x3, 0x7, 0xB, 0x3, 0x3],
        [0xD8, 0xDA, 0xDC, 0xD8, 0xD8],
        [0x4, 0xD4, 0x6, 0x4, 0x4],
        [0x2, 0x2, 0xD2, 0x2, 0x2],
        [0xD0, 0xD0, 0xD0, 0xD0, 0xD0],
    ],
    // O
    [
        [0x0, 0x1, 0x1, 0x1, 0x0],
        [0x1, 0x8, 0x8, 0x8, 0x1],
        [0x9, 0x4, 0x4, 0x4, 0x9],
        [0xC, 0x3, 0x3, 0x3, 0xC],
        [0x6, 0xD8, 0xD8, 0xD8, 0x6],
        [0xD2, 0x4, 0x4, 0x4, 0xD2],
        [0xD0, 0x2, 0x2, 0x2, 0xD0],
        [0x0, 0xD0, 0xD0, 0xD0, 0x0],
    ],
    // P
    [
        [0x1, 0x1, 0x1, 0x1, 0x1],
        [0x9, 0x8, 0x9, 0x8, 0x8],
        [0xD, 0x4, 0xD, 0x4, 0x4],
        [0xF, 0x3, 0xF, 0x2, 0x2],
        [0xDE, 0xD8, 0xDE, 0xD0, 0xD0],
        [0xD6, 0x4, 0xD6, 0x0, 0x0],
        [0xD2, 0x2, 0xD2, 0x0, 0x0],
        [0xD0, 0xD0, 0xD0, 0x0, 0x0],
    ],
    // Q
    [
        [0x0, 0x1, 0x1, 0x1, 0x0],
        [0x1, 0x8, 0x8, 0x8, 0x1],
        [0x9, 0x4, 0x4, 0x5, 0x9],
        [0xC, 0x3, 0x3, 0xB, 0xD],
        [0x6, 0xD8, 0xD8, 0xDC, 0xE],
        [0xD2, 0x4, 0x4, 0x6, 0xD6],
        [0xD0, 0x2, 0x2, 0xD2, 0xD2],
        [0x0, 0xD0, 0xD0, 0xD0, 0xD0],
    ],
    // R
    [
        [0x1, 0x1, 0x1, 0x1, 0x1],
        [0x9, 0x8, 0x9, 0x8, 0x8],
        [0xD, 0x5, 0xD, 0x5, 0x4],
        [0xE, 0xA, 0xE, 0xA, 0x3],
        [0xD6, 0xD4, 0xD6, 0xD4, 0xD8],
        [0xD2, 0x2, 0xD2, 0x2, 0x4],
        [0xD0, 0xD0, 0xD0, 0xD0, 0x2],
        [0x0, 0x0, 0x0, 0x0, 0xD0],
    ],
    // S
    [
        [0x0, 0x1, 0x0, 0x0, 0x1],
        [0x1, 0x8, 0x1, 0x0, 0x9],
        [0x9, 0x4, 0x9, 0x0, 0xD],
        [0xD, 0x2, 0xC, 0x1, 0xE],
        [0xE, 0xD0, 0x6, 0x8, 0xD6],
        [0xD6, 0x0, 0xD2, 0x4, 0xD2],
        [0xD2, 0x0, 0xD0, 0x2, 0xD0],
        [0xD0, 0x0, 0x0, 0xD0, 0x0],
    ],
    // T
    [
        [0x0, 0x0, 0x0, 0x0, 0x0],
        [0x1, 0x0, 0x0, 0x0, 0x0],
        [0x9, 0x1, 0x1, 0x1, 0x1],
        [0xD, 0x8, 0x8, 0x8, 0x8],
        [0xE, 0x4, 0x4, 0x4, 0x4],
        [0xD6, 0x2, 0x2, 0x2, 0x2],
        [0x2, 0xD0, 0xD0, 0xD0, 0xD0],
        [0xD0, 0x0, 0x0, 0x0, 0x0],
    ],
    // U
    [
        [0x1, 0x1, 0x1, 0x1, 0x0],
        [0x8, 0x8, 0x8, 0x8, 0x1],
        [0x4, 0x4, 0x4, 0x4, 0x9],
        [0x3, 0x3, 0xF, 0x3, 0xC],
        [0xD8, 0xD8, 0xD8, 0xD8, 0x6],
        [0x4, 0x4, 0x4, 0x4, 0xD2],
        [0x2, 0x2, 0x2, 0x2, 0xD0],
        [0xD0, 0xD0, 0xD0, 0xD0, 0x0],
    ],
    // V
    [
        [0x1, 0x1, 0x1, 0x1, 0x0],
        [0x8, 0x8, 0x8, 0x8, 0x1],
        [0x4, 0x4, 0x5, 0x5, 0x8],
        [0x3, 0x3, 0xA, 0xA, 0x4],
        [0xD8, 0xD8, 0xD4, 0xD4, 0x2],
        [0x4, 0x4, 0x2, 0x2, 0xD0],
        [0x2, 0x2, 0xD0, 0xD0, 0x0],
        [0xD0, 0xD0, 0x0, 0x0, 0x0],
    ],
    // W
    [
        [0x1, 0x1, 0x1, 0x1, 0x1],
        [0x8, 0x8, 0x9, 0x9, 0x8],
        [0x4, 0x4, 0xD, 0xD, 0x4],
        [0x3, 0x3, 0xF, 0xF, 0x3],
        [0xD8, 0xD8, 0xDE, 0xDE, 0xD8],
        [0x4, 0x4, 0xD6, 0xD6, 0x4],
        [0x2, 0x2, 0xD2, 0xD2, 0x2],
        [0xD0, 0xD0, 0xD0, 0xD0, 0xD0],
    ],
    // X
    [
        [0x1, 0x0, 0x0, 0x0, 0x1],
        [0x8, 0x1, 0x1, 0x1, 0x8],
        [0x4, 0x9, 0x9, 0x9, 0x4],
        [0x3, 0xC, 0xC, 0xC, 0x3],
        [0xD8, 0x6, 0x6, 0x6, 0xD8],
        [0x4, 0xD2, 0xD2, 0xD2, 0x4],
        [0x2, 0xD0, 0xD0, 0xD0, 0x2],
        [0xD0, 0x0, 0x0, 0x0, 0xD0],
    ],
    // Y
    [
        [0x1, 0x0, 0x0, 0x0, 0x1],
        [0x8, 0x1, 0x0, 0x1, 0x8],
        [0x4, 0x8, 0x1, 0x8, 0x4],
        [0x3, 0x5, 0x8, 0x4, 0x2],
        [0xD8, 0xA, 0x4, 0x2, 0xD0],
        [0x4, 0xD4, 0x2, 0xD0, 0x0],
        [0x2, 0x2, 0xD0, 0x0, 0x0],
        [0xD0, 0xD0, 0x0, 0x0, 0x0],
    ],
    // Z
    [
        [0x1, 0x0, 0x0, 0x0, 0x1],
        [0x9, 0x0, 0x0, 0x1, 0x9],
        [0xD, 0x0, 0x1, 0x8, 0xD],
        [0xF, 0x1, 0x8, 0x4, 0xF],
        [0xDE, 0x8, 0x4, 0x2, 0xDE],
        [0xD6, 0x4, 0x2, 0xD0, 0xD6],
        [0xD2, 0x2, 0xD0, 0x0, 0xD2],
        [0xD0, 0xD0, 0x0, 0x0, 0xD0],
    ],
];

} // verus!
