//! The storage layout shared by every board type: sixteen 16-bit lanes.
//!
//! Lane `r` holds row `r` for `r` in `0..15`; within a lane, bit `c` holds
//! column `c` for `c` in `0..15`. Lane 15 and bit 15 of every lane are padding
//! and are zero in a well-formed value.

use vstd::prelude::*;
use crate::grid::{
    empty_grid, full_grid, grid_and, grid_down, grid_left, grid_not, grid_or, grid_right, grid_up,
    grid_xor, on_board, single_grid,
};

verus! {

/// A lane with all fifteen columns set and the padding bit clear.
pub const ROW_MAX: u16 = 0x7FFF;

/// Bit `col` of `lane`.
pub open spec fn lane_bit(lane: u16, col: u16) -> bool {
    (lane >> col) & 1 == 1
}

/// Whether the cell `(row, col)` is occupied in `lanes`. Padding is never a cell.
pub open spec fn cell(lanes: Seq<u16>, row: int, col: int) -> bool {
    on_board(row, col) && lane_bit(lanes[row], col as u16)
}

/// The occupied cells of `lanes`.
pub open spec fn grid_of(lanes: Seq<u16>) -> Set<(int, int)> {
    Set::new(|p: (int, int)| cell(lanes, p.0, p.1))
}

/// Sixteen lanes whose padding lane and padding bits are all zero.
pub open spec fn lanes_wf(lanes: Seq<u16>) -> bool {
    &&& lanes.len() == 16
    &&& lanes[15] == 0
    &&& forall|r: int| 0 <= r < 15 ==> #[trigger] lanes[r] <= ROW_MAX
}

/// How many of the bits `0..k` of `lane` are set.
pub open spec fn ones_below(lane: u16, k: nat) -> nat
    decreases k,
{
    if k == 0 {
        0
    } else {
        ones_below(lane, (k - 1) as nat) + if lane_bit(lane, (k - 1) as u16) {
            1nat
        } else {
            0nat
        }
    }
}

/// The number of ones in the binary representation of `lane`.
pub open spec fn popcount(lane: u16) -> nat {
    ones_below(lane, 16)
}

/// How many cells are occupied in the rows `0..k` of `lanes`.
pub open spec fn cells_below(lanes: Seq<u16>, k: nat) -> nat
    decreases k,
{
    if k == 0 {
        0
    } else {
        cells_below(lanes, (k - 1) as nat) + ones_below(lanes[k - 1], 15)
    }
}

/// Column `c` of a lane shifted left by `n` and masked is column `c - n` of
/// the lane, if there is such a column.
pub proof fn lemma_bit_shl(x: u16, n: u16, c: u16)
    by (bit_vector)
    requires
        n < 15,
        c < 15,
    ensures
        lane_bit((x << n) & 0x7FFF, c) == (c >= n && lane_bit(x, (c - n) as u16)),
{
}

/// Column `c` of a lane without padding shifted right by `n` is column
/// `c + n` of the lane, if there is such a column; the padding stays clear.
pub proof fn lemma_bit_shr(x: u16, n: u16, c: u16)
    by (bit_vector)
    requires
        n < 15,
        c < 15,
        x <= 0x7FFF,
    ensures
        lane_bit(x >> n, c) == (c + n < 15 && lane_bit(x, (c + n) as u16)),
        (x >> n) <= 0x7FFF,
{
}

/// Masking a lane clears its padding bit and keeps its columns.
pub proof fn lemma_bit_mask(x: u16, c: u16)
    by (bit_vector)
    requires
        c < 15,
    ensures
        lane_bit(x & 0x7FFF, c) == lane_bit(x, c),
        (x & 0x7FFF) <= 0x7FFF,
{
}

/// A bit of `x & y` is set where it is set in both.
pub proof fn lemma_bit_and(x: u16, y: u16, c: u16)
    by (bit_vector)
    requires
        c < 16,
    ensures
        lane_bit(x & y, c) == (lane_bit(x, c) && lane_bit(y, c)),
        (x & y) <= x,
{
}

/// A bit of `x | y` is set where it is set in one of them; clear padding
/// stays clear.
pub proof fn lemma_bit_or(x: u16, y: u16, c: u16)
    by (bit_vector)
    requires
        c < 16,
    ensures
        lane_bit(x | y, c) == (lane_bit(x, c) || lane_bit(y, c)),
        x <= 0x7FFF && y <= 0x7FFF ==> (x | y) <= 0x7FFF,
{
}

/// A bit of `x ^ y` is set where it is set in exactly one of them; clear
/// padding stays clear.
pub proof fn lemma_bit_xor(x: u16, y: u16, c: u16)
    by (bit_vector)
    requires
        c < 16,
    ensures
        lane_bit(x ^ y, c) == (lane_bit(x, c) != lane_bit(y, c)),
        x <= 0x7FFF && y <= 0x7FFF ==> (x ^ y) <= 0x7FFF,
{
}

/// The masked complement of a lane has exactly the columns that the lane
/// lacks.
pub proof fn lemma_bit_not(x: u16, c: u16)
    by (bit_vector)
    requires
        c < 15,
    ensures
        lane_bit((!x) & 0x7FFF, c) == !lane_bit(x, c),
        ((!x) & 0x7FFF) <= 0x7FFF,
{
}

/// The lane `1 << k` has column `k` and no other.
pub proof fn lemma_bit_single(k: u16, c: u16)
    by (bit_vector)
    requires
        k < 15,
        c < 15,
    ensures
        lane_bit(1u16 << k, c) == (c == k),
        (1u16 << k) <= 0x7FFF,
{
}

/// The zero lane has no bit; `ROW_MAX` has the fifteen columns.
pub proof fn lemma_bit_const(c: u16)
    by (bit_vector)
    requires
        c < 16,
    ensures
        !lane_bit(0, c),
        lane_bit(0x7FFF, c) == (c < 15),
{
}

/// Two lanes without padding that agree on all fifteen columns are the same.
pub proof fn lemma_lane_ext(x: u16, y: u16)
    requires
        x <= ROW_MAX,
        y <= ROW_MAX,
        forall|c: u16| c < 15 ==> lane_bit(x, c) == lane_bit(y, c),
    ensures
        x == y,
{
    assert(lane_bit(x, 0) == lane_bit(y, 0));
    assert(lane_bit(x, 1) == lane_bit(y, 1));
    assert(lane_bit(x, 2) == lane_bit(y, 2));
    assert(lane_bit(x, 3) == lane_bit(y, 3));
    assert(lane_bit(x, 4) == lane_bit(y, 4));
    assert(lane_bit(x, 5) == lane_bit(y, 5));
    assert(lane_bit(x, 6) == lane_bit(y, 6));
    assert(lane_bit(x, 7) == lane_bit(y, 7));
    assert(lane_bit(x, 8) == lane_bit(y, 8));
    assert(lane_bit(x, 9) == lane_bit(y, 9));
    assert(lane_bit(x, 10) == lane_bit(y, 10));
    assert(lane_bit(x, 11) == lane_bit(y, 11));
    assert(lane_bit(x, 12) == lane_bit(y, 12));
    assert(lane_bit(x, 13) == lane_bit(y, 13));
    assert(lane_bit(x, 14) == lane_bit(y, 14));
    assert(x == y) by (bit_vector)
        requires
            x <= 0x7FFF,
            y <= 0x7FFF,
            lane_bit(x, 0) == lane_bit(y, 0),
            lane_bit(x, 1) == lane_bit(y, 1),
            lane_bit(x, 2) == lane_bit(y, 2),
            lane_bit(x, 3) == lane_bit(y, 3),
            lane_bit(x, 4) == lane_bit(y, 4),
            lane_bit(x, 5) == lane_bit(y, 5),
            lane_bit(x, 6) == lane_bit(y, 6),
            lane_bit(x, 7) == lane_bit(y, 7),
            lane_bit(x, 8) == lane_bit(y, 8),
            lane_bit(x, 9) == lane_bit(y, 9),
            lane_bit(x, 10) == lane_bit(y, 10),
            lane_bit(x, 11) == lane_bit(y, 11),
            lane_bit(x, 12) == lane_bit(y, 12),
            lane_bit(x, 13) == lane_bit(y, 13),
            lane_bit(x, 14) == lane_bit(y, 14),
    ;
}

/// Well-formed lanes are determined by their occupied cells.
pub proof fn lemma_grid_determines_lanes(a: Seq<u16>, b: Seq<u16>)
    requires
        lanes_wf(a),
        lanes_wf(b),
        grid_of(a) == grid_of(b),
    ensures
        a == b,
{
    assert forall|r: int| 0 <= r < 16 implies a[r] == b[r] by {
        if r < 15 {
            assert forall|c: u16| c < 15 implies lane_bit(a[r], c) == lane_bit(b[r], c) by {
                assert(grid_of(a).contains((r, c as int)) == cell(a, r, c as int));
                assert(grid_of(b).contains((r, c as int)) == cell(b, r, c as int));
            }
            lemma_lane_ext(a[r], b[r]);
        }
    }
    assert(a =~= b);
}

/// Calls `u16::count_ones` of `std`, which returns the number of ones in the
/// binary representation of its argument: what `popcount` counts bit by bit.
#[verifier::external_body]
pub(crate) fn lane_ones(lane: u16) -> (n: u32)
    ensures
        n == popcount(lane),
{
    lane.count_ones()
}

/// The lanes of `src` with the padding lane and the padding bits cleared.
pub open spec fn masked(src: Seq<u16>, dst: Seq<u16>) -> bool {
    &&& dst.len() == 16
    &&& dst[15] == 0
    &&& forall|r: int| 0 <= r < 15 ==> #[trigger] dst[r] == src[r] & ROW_MAX
}

/// Masked lanes are well formed and hold the cells of the lanes they come from.
pub proof fn lemma_lanes_masked(src: Seq<u16>, dst: Seq<u16>)
    requires
        src.len() == 16,
        masked(src, dst),
    ensures
        lanes_wf(dst),
        grid_of(dst) == grid_of(src),
{
    assert forall|r: int| 0 <= r < 15 implies #[trigger] dst[r] <= ROW_MAX by {
        lemma_bit_mask(src[r], 0);
    }
    assert forall|p: (int, int)| grid_of(dst).contains(p) == grid_of(src).contains(p) by {
        if on_board(p.0, p.1) {
            lemma_bit_mask(src[p.0], p.1 as u16);
        }
    }
    assert(grid_of(dst) =~= grid_of(src));
}

/// Sixteen zero lanes are the empty board.
pub proof fn lemma_lanes_empty(dst: Seq<u16>)
    requires
        dst.len() == 16,
        forall|r: int| 0 <= r < 16 ==> #[trigger] dst[r] == 0,
    ensures
        lanes_wf(dst),
        grid_of(dst) == empty_grid(),
{
    assert forall|p: (int, int)| !grid_of(dst).contains(p) by {
        if on_board(p.0, p.1) {
            lemma_bit_const(p.1 as u16);
        }
    }
    assert(grid_of(dst) =~= empty_grid());
}

/// Fifteen times `ROW_MAX` and a zero lane are the full board.
pub proof fn lemma_lanes_full(dst: Seq<u16>)
    requires
        dst.len() == 16,
        dst[15] == 0,
        forall|r: int| 0 <= r < 15 ==> #[trigger] dst[r] == ROW_MAX,
    ensures
        lanes_wf(dst),
        grid_of(dst) == full_grid(),
{
    assert forall|p: (int, int)| grid_of(dst).contains(p) == full_grid().contains(p) by {
        if on_board(p.0, p.1) {
            lemma_bit_const(p.1 as u16);
        }
    }
    assert(grid_of(dst) =~= full_grid());
}

/// One lane with one bit, among zero lanes, is the board with that one cell.
pub proof fn lemma_lanes_single(dst: Seq<u16>, row: int, col: int)
    requires
        dst.len() == 16,
        on_board(row, col),
        dst[row] == 1u16 << (col as u16),
        forall|r: int| 0 <= r < 16 && r != row ==> #[trigger] dst[r] == 0,
    ensures
        lanes_wf(dst),
        grid_of(dst) == single_grid(row, col),
{
    lemma_bit_single(col as u16, 0);
    assert forall|p: (int, int)| grid_of(dst).contains(p) == single_grid(row, col).contains(
        p,
    ) by {
        if on_board(p.0, p.1) {
            if p.0 == row {
                lemma_bit_single(col as u16, p.1 as u16);
            } else {
                lemma_bit_const(p.1 as u16);
            }
        }
    }
    assert(grid_of(dst) =~= single_grid(row, col));
}

/// Shifting every row left by `n` bits and masking it moves the cells `n`
/// columns to the right.
pub proof fn lemma_lanes_right(src: Seq<u16>, dst: Seq<u16>, n: u16)
    requires
        src.len() == 16,
        dst.len() == 16,
        n < 15,
        dst[15] == 0,
        forall|r: int| 0 <= r < 15 ==> #[trigger] dst[r] == (src[r] << n) & ROW_MAX,
    ensures
        lanes_wf(dst),
        grid_of(dst) == grid_right(grid_of(src), n as int),
{
    assert forall|r: int| 0 <= r < 15 implies #[trigger] dst[r] <= ROW_MAX by {
        lemma_bit_mask(src[r] << n, 0);
    }
    assert forall|p: (int, int)|
        grid_of(dst).contains(p) == grid_right(grid_of(src), n as int).contains(p) by {
        if on_board(p.0, p.1) {
            lemma_bit_shl(src[p.0], n, p.1 as u16);
            if p.1 >= n {
                assert(grid_of(src).contains((p.0, p.1 - n)) == cell(src, p.0, p.1 - n));
            }
        }
    }
    assert(grid_of(dst) =~= grid_right(grid_of(src), n as int));
}

/// Shifting every row right by `n` bits moves the cells `n` columns to the left.
pub proof fn lemma_lanes_left(src: Seq<u16>, dst: Seq<u16>, n: u16)
    requires
        lanes_wf(src),
        dst.len() == 16,
        n < 15,
        dst[15] == 0,
        forall|r: int| 0 <= r < 15 ==> #[trigger] dst[r] == src[r] >> n,
    ensures
        lanes_wf(dst),
        grid_of(dst) == grid_left(grid_of(src), n as int),
{
    assert forall|r: int| 0 <= r < 15 implies #[trigger] dst[r] <= ROW_MAX by {
        lemma_bit_shr(src[r], n, 0);
    }
    assert forall|p: (int, int)|
        grid_of(dst).contains(p) == grid_left(grid_of(src), n as int).contains(p) by {
        if on_board(p.0, p.1) {
            lemma_bit_shr(src[p.0], n, p.1 as u16);
            if p.1 + n < 15 {
                assert(grid_of(src).contains((p.0, p.1 + n)) == cell(src, p.0, p.1 + n));
            }
        }
    }
    assert(grid_of(dst) =~= grid_left(grid_of(src), n as int));
}

/// Moving every row `n` lanes toward lane 14, with zeros behind, moves the
/// cells `n` rows up.
pub proof fn lemma_lanes_up(src: Seq<u16>, dst: Seq<u16>, n: int)
    requires
        lanes_wf(src),
        dst.len() == 16,
        0 <= n,
        forall|r: int| 0 <= r < 16 ==> #[trigger] dst[r] == if n <= r < 15 {
            src[r - n]
        } else {
            0
        },
    ensures
        lanes_wf(dst),
        grid_of(dst) == grid_up(grid_of(src), n),
{
    assert forall|p: (int, int)| grid_of(dst).contains(p) == grid_up(grid_of(src), n).contains(
        p,
    ) by {
        if on_board(p.0, p.1) {
            if n <= p.0 {
                assert(grid_of(src).contains((p.0 - n, p.1)) == cell(src, p.0 - n, p.1));
            } else {
                lemma_bit_const(p.1 as u16);
            }
        }
    }
    assert(grid_of(dst) =~= grid_up(grid_of(src), n));
}

/// Moving every row `n` lanes toward lane 0, with zeros behind, moves the
/// cells `n` rows down.
pub proof fn lemma_lanes_down(src: Seq<u16>, dst: Seq<u16>, n: int)
    requires
        lanes_wf(src),
        dst.len() == 16,
        0 <= n,
        forall|r: int| 0 <= r < 16 ==> #[trigger] dst[r] == if r + n < 15 {
            src[r + n]
        } else {
            0
        },
    ensures
        lanes_wf(dst),
        grid_of(dst) == grid_down(grid_of(src), n),
{
    assert forall|p: (int, int)| grid_of(dst).contains(p) == grid_down(grid_of(src), n).contains(
        p,
    ) by {
        if on_board(p.0, p.1) {
            if p.0 + n < 15 {
                assert(grid_of(src).contains((p.0 + n, p.1)) == cell(src, p.0 + n, p.1));
            } else {
                lemma_bit_const(p.1 as u16);
            }
        }
    }
    assert(grid_of(dst) =~= grid_down(grid_of(src), n));
}

/// The lane-wise and of two well-formed boards holds the cells of both.
pub proof fn lemma_lanes_and(a: Seq<u16>, b: Seq<u16>, dst: Seq<u16>)
    requires
        lanes_wf(a),
        lanes_wf(b),
        dst.len() == 16,
        forall|r: int| 0 <= r < 16 ==> #[trigger] dst[r] == a[r] & b[r],
    ensures
        lanes_wf(dst),
        grid_of(dst) == grid_and(grid_of(a), grid_of(b)),
{
    assert forall|r: int| 0 <= r < 16 implies #[trigger] dst[r] <= a[r] by {
        lemma_bit_and(a[r], b[r], 0);
    }
    assert forall|p: (int, int)|
        grid_of(dst).contains(p) == grid_and(grid_of(a), grid_of(b)).contains(p) by {
        if on_board(p.0, p.1) {
            lemma_bit_and(a[p.0], b[p.0], p.1 as u16);
        }
    }
    assert(grid_of(dst) =~= grid_and(grid_of(a), grid_of(b)));
}

/// The lane-wise or of two well-formed boards holds the cells of either.
pub proof fn lemma_lanes_or(a: Seq<u16>, b: Seq<u16>, dst: Seq<u16>)
    requires
        lanes_wf(a),
        lanes_wf(b),
        dst.len() == 16,
        forall|r: int| 0 <= r < 16 ==> #[trigger] dst[r] == a[r] | b[r],
    ensures
        lanes_wf(dst),
        grid_of(dst) == grid_or(grid_of(a), grid_of(b)),
{
    assert forall|r: int| 0 <= r < 15 implies #[trigger] dst[r] <= ROW_MAX by {
        lemma_bit_or(a[r], b[r], 0);
    }
    assert(dst[15] == 0) by {
        assert(0u16 | 0u16 == 0u16) by (bit_vector);
    }
    assert forall|p: (int, int)|
        grid_of(dst).contains(p) == grid_or(grid_of(a), grid_of(b)).contains(p) by {
        if on_board(p.0, p.1) {
            lemma_bit_or(a[p.0], b[p.0], p.1 as u16);
        }
    }
    assert(grid_of(dst) =~= grid_or(grid_of(a), grid_of(b)));
}

/// The lane-wise exclusive or of two well-formed boards holds the cells of
/// exactly one of them.
pub proof fn lemma_lanes_xor(a: Seq<u16>, b: Seq<u16>, dst: Seq<u16>)
    requires
        lanes_wf(a),
        lanes_wf(b),
        dst.len() == 16,
        forall|r: int| 0 <= r < 16 ==> #[trigger] dst[r] == a[r] ^ b[r],
    ensures
        lanes_wf(dst),
        grid_of(dst) == grid_xor(grid_of(a), grid_of(b)),
{
    assert forall|r: int| 0 <= r < 15 implies #[trigger] dst[r] <= ROW_MAX by {
        lemma_bit_xor(a[r], b[r], 0);
    }
    assert(dst[15] == 0) by {
        assert(0u16 ^ 0u16 == 0u16) by (bit_vector);
    }
    assert forall|p: (int, int)|
        grid_of(dst).contains(p) == grid_xor(grid_of(a), grid_of(b)).contains(p) by {
        if on_board(p.0, p.1) {
            lemma_bit_xor(a[p.0], b[p.0], p.1 as u16);
        }
    }
    assert(grid_of(dst) =~= grid_xor(grid_of(a), grid_of(b)));
}

/// The masked complement of every row holds the free cells.
pub proof fn lemma_lanes_not(src: Seq<u16>, dst: Seq<u16>)
    requires
        src.len() == 16,
        dst.len() == 16,
        dst[15] == 0,
        forall|r: int| 0 <= r < 15 ==> #[trigger] dst[r] == (!src[r]) & ROW_MAX,
    ensures
        lanes_wf(dst),
        grid_of(dst) == grid_not(grid_of(src)),
{
    assert forall|r: int| 0 <= r < 15 implies #[trigger] dst[r] <= ROW_MAX by {
        lemma_bit_not(src[r], 0);
    }
    assert forall|p: (int, int)| grid_of(dst).contains(p) == grid_not(grid_of(src)).contains(
        p,
    ) by {
        if on_board(p.0, p.1) {
            lemma_bit_not(src[p.0], p.1 as u16);
        }
    }
    assert(grid_of(dst) =~= grid_not(grid_of(src)));
}

/// Lanes that agree once their padding is masked away hold the same cells,
/// and the other way round.
pub proof fn lemma_lanes_same_cells(a: Seq<u16>, b: Seq<u16>)
    requires
        a.len() == 16,
        b.len() == 16,
    ensures
        (grid_of(a) == grid_of(b)) <==> (forall|r: int|
            0 <= r < 15 ==> #[trigger] (a[r] & ROW_MAX) == b[r] & ROW_MAX),
{
    let ma = Seq::new(16, |r: int| if r < 15 { a[r] & ROW_MAX } else { 0u16 });
    let mb = Seq::new(16, |r: int| if r < 15 { b[r] & ROW_MAX } else { 0u16 });
    lemma_lanes_masked(a, ma);
    lemma_lanes_masked(b, mb);
    if grid_of(a) == grid_of(b) {
        lemma_grid_determines_lanes(ma, mb);
        assert forall|r: int| 0 <= r < 15 implies #[trigger] (a[r] & ROW_MAX) == b[r]
            & ROW_MAX by {
            assert(ma[r] == mb[r]);
        }
    }
    if forall|r: int| 0 <= r < 15 ==> #[trigger] (a[r] & ROW_MAX) == b[r] & ROW_MAX {
        assert(ma =~= mb);
    }
}

/// Among `k` bits at most `k` are set.
pub proof fn lemma_ones_below_bound(lane: u16, k: nat)
    ensures
        ones_below(lane, k) <= k,
    decreases k,
{
    if k > 0 {
        lemma_ones_below_bound(lane, (k - 1) as nat);
    }
}

/// `k` rows hold at most `15 * k` cells.
pub proof fn lemma_cells_below_bound(lanes: Seq<u16>, k: nat)
    ensures
        cells_below(lanes, k) <= 15 * k,
    decreases k,
{
    if k > 0 {
        lemma_cells_below_bound(lanes, (k - 1) as nat);
        lemma_ones_below_bound(lanes[k - 1], 15);
    }
}

/// A lane without padding has as many ones as it has occupied columns.
pub proof fn lemma_popcount_columns(lane: u16)
    requires
        lane <= ROW_MAX,
    ensures
        popcount(lane) == ones_below(lane, 15),
{
    assert(!lane_bit(lane, 15)) by (bit_vector)
        requires
            lane <= 0x7FFF,
    ;
    reveal_with_fuel(ones_below, 2);
}

/// The cells of `lanes` that come before `(row, col)` in row-major order.
pub open spec fn grid_before(lanes: Seq<u16>, row: int, col: int) -> Set<(int, int)> {
    Set::new(
        |p: (int, int)| cell(lanes, p.0, p.1) && (p.0 < row || (p.0 == row && p.1 < col)),
    )
}

/// The cells before `(row, col)` are as many as the rows before `row` hold,
/// and the columns before `col` of row `row`.
pub proof fn lemma_grid_before_len(lanes: Seq<u16>, row: int, col: int)
    requires
        lanes.len() == 16,
        0 <= row <= 15,
        0 <= col <= 15,
        row == 15 ==> col == 0,
    ensures
        grid_before(lanes, row, col).finite(),
        grid_before(lanes, row, col).len() == cells_below(lanes, row as nat) + ones_below(
            lanes[row],
            col as nat,
        ),
    decreases row, col,
{
    let g = grid_before(lanes, row, col);
    if col > 0 {
        lemma_grid_before_len(lanes, row, col - 1);
        let h = grid_before(lanes, row, col - 1);
        if cell(lanes, row, col - 1) {
            assert(g =~= h.insert((row, col - 1)));
        } else {
            assert(g =~= h);
        }
    } else if row > 0 {
        lemma_grid_before_len(lanes, row - 1, 15);
        assert(g =~= grid_before(lanes, row - 1, 15));
    } else {
        assert(g =~= Set::<(int, int)>::empty());
    }
}

/// The number of occupied cells is the sum over the rows of their occupied columns.
pub proof fn lemma_grid_len(lanes: Seq<u16>)
    requires
        lanes.len() == 16,
    ensures
        grid_of(lanes).finite(),
        grid_of(lanes).len() == cells_below(lanes, 15),
{
    lemma_grid_before_len(lanes, 15, 0);
    assert(grid_of(lanes) =~= grid_before(lanes, 15, 0));
}

/// The zero lane has no bit set.
pub proof fn lemma_ones_below_zero(k: nat)
    requires
        k <= 16,
    ensures
        ones_below(0, k) == 0,
    decreases k,
{
    if k > 0 {
        lemma_ones_below_zero((k - 1) as nat);
        lemma_bit_const((k - 1) as u16);
    }
}

/// And with zero is zero, and zero shifted is zero.
pub proof fn lemma_lane_zero(x: u16, n: u16)
    by (bit_vector)
    requires
        n < 16,
    ensures
        x & 0 == 0,
        0u16 >> n == 0,
{
}

/// The exclusive or of two lanes is zero exactly when they are the same.
pub proof fn lemma_lane_xor_zero(x: u16, y: u16)
    by (bit_vector)
    ensures
        (x ^ y == 0) == (x == y),
{
}

/// The lanes of the full board: fifteen times `ROW_MAX`.
pub proof fn lemma_full_lanes(lanes: Seq<u16>, r: int)
    requires
        lanes_wf(lanes),
        grid_of(lanes) == full_grid(),
        0 <= r < 15,
    ensures
        lanes[r] == ROW_MAX,
{
    assert forall|c: u16| c < 15 implies lane_bit(lanes[r], c) == lane_bit(ROW_MAX, c) by {
        assert(grid_of(lanes).contains((r, c as int)) == cell(lanes, r, c as int));
        assert(full_grid().contains((r, c as int)));
        lemma_bit_const(c);
    }
    lemma_lane_ext(lanes[r], ROW_MAX);
}

} // verus!
