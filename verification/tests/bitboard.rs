use scrubble::bitboard::Bitboard;
use scrubble::board::{Coordinate, Location};

#[test]
fn mod_count_ones() {
    let b = Bitboard::full();
    assert_eq!(b.count_ones(), 225);
}

#[test]
fn mod_right_one() {
    let b = Bitboard::full();
    let result = b.right_one();
    let expected = Bitboard::new_raw([0x7FFE; 16]);
    assert_eq!(result, expected);
}

#[test]
fn mod_fifteen_right_ones_is_empty() {
    let mut b = Bitboard::full();
    for _ in 0..14 {
        b = b.right_one();
    }
    assert_ne!(b, Bitboard::empty());
    assert_eq!(b.right_one(), Bitboard::empty());
}

#[test]
fn mod_left_one() {
    let b = Bitboard::full();
    let result = b.left_one();
    let expected = Bitboard::new_raw([0x3FFF; 16]);
    assert_eq!(result, expected);
}

#[test]
fn mod_fifteen_left_ones_is_empty() {
    let mut b = Bitboard::full();
    for _ in 0..14 {
        b = b.left_one();
    }
    assert_ne!(b, Bitboard::empty());
    assert_eq!(b.left_one(), Bitboard::empty());
}

#[test]
fn mod_up_one() {
    let b = Bitboard::new_raw([1, 0, 2, 0, 1, 0, 2, 0, 1, 0, 2, 0, 1, 0, 2, 0]);
    let expected = Bitboard::new_raw([0, 1, 0, 2, 0, 1, 0, 2, 0, 1, 0, 2, 0, 1, 0, 0]);
    assert_eq!(b.up_one(), expected);
}

#[test]
fn mod_fifteen_up_ones_is_empty() {
    let mut b = Bitboard::full();
    for _ in 0..14 {
        b = b.up_one();
    }
    assert_ne!(b, Bitboard::empty());
    assert_eq!(b.up_one(), Bitboard::empty());
}

#[test]
fn mod_down_one() {
    let b = Bitboard::new_raw([
        0xFFFF, 0x0000, 0xFFFF, 0x0000, 0xFFFF, 0x0000, 0xFFFF, 0x0000, 0xFFFF, 0x0000, 0xFFFF,
        0x0000, 0xFFFF, 0x0000, 0xFFFF, 0x0000,
    ]);
    let expected = Bitboard::new_raw([
        0x0000, 0xFFFF, 0x0000, 0xFFFF, 0x0000, 0xFFFF, 0x0000, 0xFFFF, 0x0000, 0xFFFF, 0x0000,
        0xFFFF, 0x0000, 0xFFFF, 0x0000, 0x0000,
    ]);
    assert_eq!(b.down_one(), expected);
}

#[test]
fn mod_fifteen_down_ones_is_empty() {
    let mut b = Bitboard::full();
    for _ in 0..14 {
        b = b.down_one();
    }
    assert_ne!(b, Bitboard::empty());
    assert_eq!(b.down_one(), Bitboard::empty());
}

#[test]
fn equality_ignores_extra_byte_and_bits() {
    let a = Bitboard::full();
    let b = Bitboard { rows: [0xFFFF; 16] };
    assert_eq!(a, b);
}

fn sample() -> [u16; 16] {
    [
        0x0001, 0x4000, 0x7FFF, 0x0000, 0x1234, 0x2AAA, 0x5555, 0x00F0, 0x0F00, 0x7000, 0x0007,
        0x4001, 0x3FFE, 0x0180, 0x6003, 0x0000,
    ]
}

fn location(row: u8, column: u8) -> Location {
    Location::new(Coordinate::new(row).unwrap(), Coordinate::new(column).unwrap())
}

#[test]
fn constructors_have_exact_rows() {
    let mut full = [0x7FFF; 16];
    full[15] = 0;
    assert_eq!(Bitboard::full().rows, full);
    assert_eq!(Bitboard::empty().rows, [0; 16]);
}

#[test]
fn new_raw_clears_the_padding() {
    let b = Bitboard::new_raw([0xFFFF; 16]);
    let mut full = [0x7FFF; 16];
    full[15] = 0;
    assert_eq!(b.rows, full);
    let c = Bitboard::new_raw([0x8000; 16]);
    assert_eq!(c.rows, [0; 16]);
    assert_eq!(Bitboard::new_raw(sample()).rows, sample());
}

#[test]
fn from_location_sets_one_cell() {
    let b = Bitboard::from_location(location(1, 1));
    let mut rows = [0u16; 16];
    rows[0] = 1;
    assert_eq!(b.rows, rows);
    let b = Bitboard::from_location(location(15, 15));
    let mut rows = [0u16; 16];
    rows[14] = 0x4000;
    assert_eq!(b.rows, rows);
    let b = Bitboard::from_location(location(3, 7));
    let mut rows = [0u16; 16];
    rows[2] = 1 << 6;
    assert_eq!(b.rows, rows);
    assert_eq!(b.count_ones(), 1);
}

#[test]
fn count_ones_counts_cells_only() {
    assert_eq!(Bitboard::empty().count_ones(), 0);
    assert_eq!(Bitboard::new_raw(sample()).count_ones(), 72);
    assert_eq!(Bitboard { rows: [0xFFFF; 16] }.count_ones(), 225);
    assert_eq!(Bitboard { rows: [0x8000; 16] }.count_ones(), 0);
}

#[test]
fn single_steps_have_exact_rows() {
    let b = Bitboard::new_raw(sample());
    let right = [
        0x0002, 0x0000, 0x7FFE, 0x0000, 0x2468, 0x5554, 0x2AAA, 0x01E0, 0x1E00, 0x6000, 0x000E,
        0x0002, 0x7FFC, 0x0300, 0x4006, 0x0000,
    ];
    assert_eq!(b.right_one().rows, right);
    let left = [
        0x0000, 0x2000, 0x3FFF, 0x0000, 0x091A, 0x1555, 0x2AAA, 0x0078, 0x0780, 0x3800, 0x0003,
        0x2000, 0x1FFF, 0x00C0, 0x3001, 0x0000,
    ];
    assert_eq!(b.left_one().rows, left);
    let up = [
        0x0000, 0x0001, 0x4000, 0x7FFF, 0x0000, 0x1234, 0x2AAA, 0x5555, 0x00F0, 0x0F00, 0x7000,
        0x0007, 0x4001, 0x3FFE, 0x0180, 0x0000,
    ];
    assert_eq!(b.up_one().rows, up);
    let down = [
        0x4000, 0x7FFF, 0x0000, 0x1234, 0x2AAA, 0x5555, 0x00F0, 0x0F00, 0x7000, 0x0007, 0x4001,
        0x3FFE, 0x0180, 0x6003, 0x0000, 0x0000,
    ];
    assert_eq!(b.down_one().rows, down);
}

#[test]
fn steps_ignore_stray_padding() {
    let stray = Bitboard { rows: [0xFFFF; 16] };
    assert_eq!(stray.left_one().rows, Bitboard::full().left_one().rows);
    assert_eq!(stray.right_one().rows, Bitboard::full().right_one().rows);
    assert_eq!(stray.up_one().rows, Bitboard::full().up_one().rows);
    assert_eq!(stray.down_one().rows, Bitboard::full().down_one().rows);
    assert_eq!((!stray).rows, [0; 16]);
    assert_eq!((stray | Bitboard::empty()).rows, Bitboard::full().rows);
    assert_eq!((stray & stray).rows, Bitboard::full().rows);
    assert_eq!((stray ^ Bitboard::empty()).rows, Bitboard::full().rows);
}

#[test]
fn boolean_algebra_on_samples() {
    let b = Bitboard::new_raw(sample());
    assert_eq!(b & Bitboard::full(), b);
    assert_eq!(b & Bitboard::empty(), Bitboard::empty());
    assert_eq!(b | Bitboard::empty(), b);
    assert_eq!(b | Bitboard::full(), Bitboard::full());
    assert_eq!(!!b, b);
    assert_eq!(!Bitboard::empty(), Bitboard::full());
    assert_eq!(!Bitboard::full(), Bitboard::empty());
    assert_eq!(b ^ b, Bitboard::empty());
    assert_eq!(b ^ Bitboard::full(), !b);
    assert_eq!((!b).count_ones(), 225 - 72);
}

#[test]
fn operators_have_exact_rows() {
    let a = Bitboard::new_raw([0x00FF; 16]);
    let b = Bitboard::new_raw([0x0F0F; 16]);
    let mut and = [0x000F; 16];
    and[15] = 0;
    let mut or = [0x0FFF; 16];
    or[15] = 0;
    let mut xor = [0x0FF0; 16];
    xor[15] = 0;
    let mut not = [0x7F00; 16];
    not[15] = 0;
    assert_eq!((a & b).rows, and);
    assert_eq!((a | b).rows, or);
    assert_eq!((a ^ b).rows, xor);
    assert_eq!((!a).rows, not);
}

#[test]
fn compound_assignment_matches_the_operators() {
    let a = Bitboard::new_raw(sample());
    let b = Bitboard::new_raw([0x0F0F; 16]);
    let mut x = a;
    x &= b;
    assert_eq!(x.rows, (a & b).rows);
    let mut x = a;
    x |= b;
    assert_eq!(x.rows, (a | b).rows);
    let mut x = a;
    x ^= b;
    assert_eq!(x.rows, (a ^ b).rows);
}

#[test]
fn equality_is_reflexive_and_tells_boards_apart() {
    let b = Bitboard::new_raw(sample());
    assert_eq!(b, b);
    assert_ne!(b, Bitboard::empty());
    let mut rows = sample();
    rows[14] ^= 0x4000;
    assert_ne!(b, Bitboard::new_raw(rows));
    rows[14] ^= 0x4000;
    rows[15] = 0x1234;
    rows[0] |= 0x8000;
    assert_eq!(b, Bitboard { rows });
}

#[test]
fn render_shows_row_fifteen_first_and_column_one_leftmost() {
    let mut rows = [0u16; 16];
    rows[0] = 0x0001;
    rows[1] = 0x4000;
    rows[14] = 0x0003;
    rows[15] = 0xFFFF;
    let text = Bitboard { rows }.render();
    let lines: Vec<&str> = text.lines().collect();
    assert_eq!(text.len(), 240);
    assert_eq!(lines.len(), 15);
    assert_eq!(lines[0], "110000000000000");
    assert_eq!(lines[13], "000000000000001");
    assert_eq!(lines[14], "100000000000000");
    for line in &lines[1..13] {
        assert_eq!(*line, "000000000000000");
    }
    let full = Bitboard::full().render();
    assert_eq!(full, "111111111111111\n".repeat(15));
}
