use scrubble::board::{Coordinate, Location};
use scrubble::engine::Bitboard;
use scrubble::scalar::BitboardImpl;

#[test]
fn scalar_count_ones() {
    let b = BitboardImpl::full();
    assert_eq!(b.count_ones(), 225);
}

#[test]
fn scalar_right_one() {
    let b = BitboardImpl::full();
    let result = b.right(1);
    let expected = BitboardImpl::new_raw([0x7FFE; 16]);
    assert_eq!(result, expected);
}

#[test]
fn scalar_fifteen_right_ones_is_empty() {
    let mut b = BitboardImpl::full();
    for _ in 0..14 {
        b = b.right(1);
    }
    assert_ne!(b, BitboardImpl::empty());
    assert_eq!(b.right(1), BitboardImpl::empty());
}

#[test]
fn scalar_left_one() {
    let b = BitboardImpl::full();
    let result = b.left(1);
    let expected = BitboardImpl::new_raw([0x3FFF; 16]);
    assert_eq!(result, expected);
}

#[test]
fn scalar_fifteen_left_ones_is_empty() {
    let mut b = BitboardImpl::full();
    for _ in 0..14 {
        b = b.left(1);
    }
    assert_ne!(b, BitboardImpl::empty());
    assert_eq!(b.left(1), BitboardImpl::empty());
}

#[test]
fn scalar_up_one() {
    let b = BitboardImpl::new_raw([1, 0, 2, 0, 1, 0, 2, 0, 1, 0, 2, 0, 1, 0, 2, 0]);
    let expected = BitboardImpl::new_raw([0, 1, 0, 2, 0, 1, 0, 2, 0, 1, 0, 2, 0, 1, 0, 0]);
    assert_eq!(b.up(1), expected);
}

#[test]
fn scalar_fifteen_up_ones_is_empty() {
    let mut b = BitboardImpl::full();
    for _ in 0..14 {
        b = b.up(1);
    }
    assert_ne!(b, BitboardImpl::empty());
    assert_eq!(b.up(1), BitboardImpl::empty());
}

#[test]
fn scalar_down_one() {
    let b = BitboardImpl::new_raw([
        0xFFFF, 0x0000, 0xFFFF, 0x0000, 0xFFFF, 0x0000, 0xFFFF, 0x0000, 0xFFFF, 0x0000, 0xFFFF,
        0x0000, 0xFFFF, 0x0000, 0xFFFF, 0x0000,
    ]);
    let expected = BitboardImpl::new_raw([
        0x0000, 0xFFFF, 0x0000, 0xFFFF, 0x0000, 0xFFFF, 0x0000, 0xFFFF, 0x0000, 0xFFFF, 0x0000,
        0xFFFF, 0x0000, 0xFFFF, 0x0000, 0x0000,
    ]);
    assert_eq!(b.down(1), expected);
}

#[test]
fn scalar_fifteen_down_ones_is_empty() {
    let mut b = BitboardImpl::full();
    for _ in 0..14 {
        b = b.down(1);
    }
    assert_ne!(b, BitboardImpl::empty());
    assert_eq!(b.down(1), BitboardImpl::empty());
}

#[test]
fn scalar_not_empty_full() {
    assert_eq!(!BitboardImpl::empty(), BitboardImpl::full());
    assert_eq!(!BitboardImpl::full(), BitboardImpl::empty());
}

fn samples() -> Vec<[u16; 16]> {
    let mut full = [0x7FFF; 16];
    full[15] = 0;
    let mut corners = [0u16; 16];
    corners[0] = 0x4001;
    corners[14] = 0x4001;
    vec![
        [0; 16],
        full,
        corners,
        [
            0x0001, 0x4000, 0x7FFF, 0x0000, 0x1234, 0x2AAA, 0x5555, 0x00F0, 0x0F00, 0x7000,
            0x0007, 0x4001, 0x3FFE, 0x0180, 0x6003, 0x0000,
        ],
        [
            0x7FFF, 0x0000, 0x7FFF, 0x0000, 0x7FFF, 0x0000, 0x7FFF, 0x0000, 0x7FFF, 0x0000,
            0x7FFF, 0x0000, 0x7FFF, 0x0000, 0x7FFF, 0x0000,
        ],
    ]
}

#[test]
fn scalar_constructors_have_exact_lanes() {
    let mut full = [0x7FFF; 16];
    full[15] = 0;
    assert_eq!(BitboardImpl::empty().to_raw(), [0; 16]);
    assert_eq!(BitboardImpl::full().to_raw(), full);
    assert_eq!(BitboardImpl::new_raw([0xFFFF; 16]).to_raw(), full);
    assert_eq!(BitboardImpl::new_raw([0x8000; 16]).to_raw(), [0; 16]);
    for rows in samples() {
        assert_eq!(BitboardImpl::new_raw(rows).to_raw(), rows);
    }
}

#[test]
fn scalar_for_location_sets_one_cell() {
    let at = |row: u8, column: u8| {
        Location::new(Coordinate::new(row).unwrap(), Coordinate::new(column).unwrap())
    };
    let mut rows = [0u16; 16];
    rows[4] = 1 << 11;
    assert_eq!(BitboardImpl::for_location(at(5, 12)).to_raw(), rows);
    assert_eq!(BitboardImpl::for_location(at(5, 12)).count_ones(), 1);
    let mut rows = [0u16; 16];
    rows[14] = 1;
    assert_eq!(BitboardImpl::for_location(at(15, 1)).to_raw(), rows);
}

#[test]
fn scalar_shifts_have_exact_lanes() {
    let rows = samples()[3];
    let b = BitboardImpl::new_raw(rows);
    let right3 = [
        0x0008, 0x0000, 0x7FF8, 0x0000, 0x11A0, 0x5550, 0x2AA8, 0x0780, 0x7800, 0x0000, 0x0038,
        0x0008, 0x7FF0, 0x0C00, 0x0018, 0x0000,
    ];
    assert_eq!(b.right(3).to_raw(), right3);
    let left3 = [
        0x0000, 0x0800, 0x0FFF, 0x0000, 0x0246, 0x0555, 0x0AAA, 0x001E, 0x01E0, 0x0E00, 0x0000,
        0x0800, 0x07FF, 0x0030, 0x0C00, 0x0000,
    ];
    assert_eq!(b.left(3).to_raw(), left3);
    let up3 = [
        0x0000, 0x0000, 0x0000, 0x0001, 0x4000, 0x7FFF, 0x0000, 0x1234, 0x2AAA, 0x5555, 0x00F0,
        0x0F00, 0x7000, 0x0007, 0x4001, 0x0000,
    ];
    assert_eq!(b.up(3).to_raw(), up3);
    let down3 = [
        0x0000, 0x1234, 0x2AAA, 0x5555, 0x00F0, 0x0F00, 0x7000, 0x0007, 0x4001, 0x3FFE, 0x0180,
        0x6003, 0x0000, 0x0000, 0x0000, 0x0000,
    ];
    assert_eq!(b.down(3).to_raw(), down3);
}

#[test]
fn scalar_shift_by_nothing_and_by_too_much() {
    for rows in samples() {
        let b = BitboardImpl::new_raw(rows);
        assert_eq!(b.right(0).to_raw(), rows);
        assert_eq!(b.left(0).to_raw(), rows);
        assert_eq!(b.up(0).to_raw(), rows);
        assert_eq!(b.down(0).to_raw(), rows);
        for by in [15usize, 16, 17, 100, usize::MAX] {
            assert_eq!(b.right(by).to_raw(), [0; 16]);
            assert_eq!(b.left(by).to_raw(), [0; 16]);
            assert_eq!(b.up(by).to_raw(), [0; 16]);
            assert_eq!(b.down(by).to_raw(), [0; 16]);
        }
    }
}

#[test]
fn scalar_shift_is_repeated_single_steps() {
    for rows in samples() {
        let b = BitboardImpl::new_raw(rows);
        for by in 0..15usize {
            assert_eq!(b.right(by), (0..by).fold(b, |acc, _| acc.right(1)));
            assert_eq!(b.left(by), (0..by).fold(b, |acc, _| acc.left(1)));
            assert_eq!(b.up(by), (0..by).fold(b, |acc, _| acc.up(1)));
            assert_eq!(b.down(by), (0..by).fold(b, |acc, _| acc.down(1)));
        }
    }
}

#[test]
fn scalar_padding_stays_clear() {
    for rows in samples() {
        let b = BitboardImpl::new_raw(rows);
        for by in 0..17usize {
            for out in [b.right(by), b.left(by), b.up(by), b.down(by), !b, b | !b, b ^ b.up(by)] {
                let lanes = out.to_raw();
                assert_eq!(lanes[15], 0);
                assert!(lanes.iter().all(|lane| lane & 0x8000 == 0));
            }
        }
    }
}

#[test]
fn scalar_boolean_algebra_on_samples() {
    for rows in samples() {
        let b = BitboardImpl::new_raw(rows);
        assert_eq!(b & BitboardImpl::full(), b);
        assert_eq!(b & BitboardImpl::empty(), BitboardImpl::empty());
        assert_eq!(b | BitboardImpl::empty(), b);
        assert_eq!(b | BitboardImpl::full(), BitboardImpl::full());
        assert_eq!(!!b, b);
        assert_eq!(b, b);
        assert_eq!((!b).count_ones(), 225 - b.count_ones());
    }
}

#[test]
fn scalar_operators_have_exact_lanes() {
    let a = BitboardImpl::new_raw([0x00FF; 16]);
    let b = BitboardImpl::new_raw([0x0F0F; 16]);
    let mut and = [0x000F; 16];
    and[15] = 0;
    let mut or = [0x0FFF; 16];
    or[15] = 0;
    let mut xor = [0x0FF0; 16];
    xor[15] = 0;
    let mut not = [0x7F00; 16];
    not[15] = 0;
    assert_eq!((a & b).to_raw(), and);
    assert_eq!((a | b).to_raw(), or);
    assert_eq!((a ^ b).to_raw(), xor);
    assert_eq!((!a).to_raw(), not);
    let mut x = a;
    x &= b;
    assert_eq!(x.to_raw(), and);
    let mut x = a;
    x |= b;
    assert_eq!(x.to_raw(), or);
    let mut x = a;
    x ^= b;
    assert_eq!(x.to_raw(), xor);
}

#[test]
fn scalar_equality_tells_boards_apart() {
    let all = samples();
    for (i, a) in all.iter().enumerate() {
        for (j, b) in all.iter().enumerate() {
            let same = BitboardImpl::new_raw(*a) == BitboardImpl::new_raw(*b);
            assert_eq!(same, i == j);
        }
    }
    let mut low = [0u16; 16];
    low[0] = 1;
    let mut high = [0u16; 16];
    high[14] = 0x4000;
    assert_ne!(BitboardImpl::new_raw(low), BitboardImpl::empty());
    assert_ne!(BitboardImpl::new_raw(high), BitboardImpl::empty());
}

#[test]
fn scalar_count_ones_on_samples() {
    let counts: Vec<u32> =
        samples().into_iter().map(|rows| BitboardImpl::new_raw(rows).count_ones()).collect();
    assert_eq!(counts, vec![0, 225, 4, 72, 120]);
}

#[test]
fn scalar_render_is_a_grid() {
    let mut rows = [0u16; 16];
    rows[0] = 0x0001;
    rows[14] = 0x4000;
    let text = BitboardImpl::new_raw(rows).render();
    let lines: Vec<&str> = text.lines().collect();
    assert_eq!(lines.len(), 15);
    assert_eq!(lines[0], "000000000000001");
    assert_eq!(lines[14], "100000000000000");
    assert_eq!(text.len(), 240);
}
