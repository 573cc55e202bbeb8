//! Row-by-row computation on sixteen lanes: the scalar way to work on a board.

use vstd::prelude::*;
use crate::grid::{
    empty_grid, full_grid, grid_and, grid_down, grid_left, grid_not, grid_or, grid_right, grid_up,
    grid_xor, lemma_shift_off_board, single_grid,
};
use crate::lanes::{
    cells_below, grid_of, lane_ones, lanes_wf, lemma_cells_below_bound, lemma_grid_len, lemma_lanes_and,
    lemma_lanes_down, lemma_lanes_empty, lemma_lanes_full, lemma_lanes_left, lemma_lanes_masked,
    lemma_lanes_not, lemma_lanes_or, lemma_lanes_right, lemma_lanes_same_cells,
    lemma_lanes_single, lemma_lanes_up, lemma_lanes_xor, lemma_ones_below_bound, lemma_ones_below_zero,
    lemma_popcount_columns, popcount, ROW_MAX,
};

verus! {

/// Sixteen zero lanes: the board without an occupied cell.
pub(crate) fn empty_rows() -> (out: [u16; 16])
    ensures
        lanes_wf(out@),
        grid_of(out@) == empty_grid(),
{
    let out = [0u16;16];
    proof {
        lemma_lanes_empty(out@);
    }
    out
}

/// Fifteen full lanes and the zero padding lane: the board with every cell occupied.
pub(crate) fn full_rows() -> (out: [u16; 16])
    ensures
        lanes_wf(out@),
        grid_of(out@) == full_grid(),
{
    let mut out = [ROW_MAX;16];
    out[15] = 0;
    proof {
        lemma_lanes_full(out@);
    }
    out
}

/// The lanes in which exactly the cell `(row, col)` is occupied.
pub(crate) fn single_rows(row: usize, col: usize) -> (out: [u16; 16])
    requires
        row < 15,
        col < 15,
    ensures
        lanes_wf(out@),
        grid_of(out@) == single_grid(row as int, col as int),
{
    let mut out = [0u16;16];
    let bit: u16 = col as u16;
    out[row] = 1u16 << bit;
    proof {
        lemma_lanes_single(out@, row as int, col as int);
    }
    out
}

/// Clears the padding lane and the padding bit of every lane, and keeps every cell.
pub(crate) fn masked_rows(rows: [u16; 16]) -> (out: [u16; 16])
    ensures
        lanes_wf(out@),
        grid_of(out@) == grid_of(rows@),
{
    let mut out = rows;
    let mut i: usize = 0;
    while i < 15
        invariant
            i <= 15,
            forall|j: int| 0 <= j < i ==> #[trigger] out[j] == rows[j] & ROW_MAX,
            forall|j: int| i <= j < 16 ==> #[trigger] out[j] == rows[j],
        decreases 15 - i,
    {
        out[i] = out[i] & ROW_MAX;
        i += 1;
    }
    out[15] = 0;
    proof {
        lemma_lanes_masked(rows@, out@);
    }
    out
}

/// The number of occupied cells, as the sum of the lanes' population counts.
pub(crate) fn count_rows(rows: &[u16; 16]) -> (n: u32)
    requires
        lanes_wf(rows@),
    ensures
        n == grid_of(rows@).len(),
        n <= 225,
{
    let mut n: u32 = 0;
    let mut i: usize = 0;
    while i < 15
        invariant
            i <= 15,
            lanes_wf(rows@),
            n == cells_below(rows@, i as nat),
            n <= 15 * i,
        decreases 15 - i,
    {
        proof {
            lemma_popcount_columns(rows[i as int]);
            lemma_ones_below_bound(rows[i as int], 15);
        }
        n = n + lane_ones(rows[i]);
        i += 1;
    }
    proof {
        lemma_grid_len(rows@);
        lemma_cells_below_bound(rows@, 15);
        assert(popcount(0) == 0) by {
            lemma_popcount_columns(0);
            lemma_ones_below_zero(15);
        }
    }
    n + lane_ones(rows[15])
}

/// Every lane shifted toward higher columns by `n`, with what leaves the
/// fifteen columns masked away.
pub(crate) fn right_rows(rows: &[u16; 16], n: usize) -> (out: [u16; 16])
    ensures
        lanes_wf(out@),
        grid_of(out@) == grid_right(grid_of(rows@), n as int),
{
    if n >= 15 {
        proof {
            lemma_shift_off_board(grid_of(rows@), n as int);
        }
        return empty_rows();
    }
    let by: u16 = n as u16;
    let mut out = *rows;
    let mut i: usize = 0;
    while i < 15
        invariant
            i <= 15,
            by < 15,
            forall|j: int| 0 <= j < i ==> #[trigger] out[j] == (rows[j] << by) & ROW_MAX,
            forall|j: int| i <= j < 16 ==> #[trigger] out[j] == rows[j],
        decreases 15 - i,
    {
        out[i] = (out[i] << by) & ROW_MAX;
        i += 1;
    }
    out[15] = 0;
    proof {
        lemma_lanes_right(rows@, out@, by);
    }
    out
}

/// Every lane shifted toward lower columns by `n`. Clear padding stays clear.
pub(crate) fn left_rows(rows: &[u16; 16], n: usize) -> (out: [u16; 16])
    requires
        lanes_wf(rows@),
    ensures
        lanes_wf(out@),
        grid_of(out@) == grid_left(grid_of(rows@), n as int),
{
    if n >= 15 {
        proof {
            lemma_shift_off_board(grid_of(rows@), n as int);
        }
        return empty_rows();
    }
    let by: u16 = n as u16;
    let mut out = *rows;
    let mut i: usize = 0;
    while i < 15
        invariant
            i <= 15,
            by < 15,
            out[15] == 0,
            forall|j: int| 0 <= j < i ==> #[trigger] out[j] == rows[j] >> by,
            forall|j: int| i <= j < 16 ==> #[trigger] out[j] == rows[j],
        decreases 15 - i,
    {
        out[i] = out[i] >> by;
        i += 1;
    }
    proof {
        lemma_lanes_left(rows@, out@, by);
    }
    out
}

/// Every row copied `n` rows toward higher indices; the rows that are
/// vacated and the padding lane are zero.
pub(crate) fn up_rows(rows: &[u16; 16], n: usize) -> (out: [u16; 16])
    requires
        lanes_wf(rows@),
    ensures
        lanes_wf(out@),
        grid_of(out@) == grid_up(grid_of(rows@), n as int),
{
    if n >= 15 {
        proof {
            lemma_shift_off_board(grid_of(rows@), n as int);
        }
        return empty_rows();
    }
    let mut out = *rows;
    let mut i: usize = 15;
    while i > n
        invariant
            n <= i <= 15,
            n < 15,
            out[15] == 0,
            forall|j: int| i <= j < 15 ==> #[trigger] out[j] == rows[j - n],
            forall|j: int| 0 <= j < i ==> #[trigger] out[j] == rows[j],
        decreases i,
    {
        i -= 1;
        out[i] = out[i - n];
    }
    while i > 0
        invariant
            i <= n < 15,
            out[15] == 0,
            forall|j: int| n <= j < 15 ==> #[trigger] out[j] == rows[j - n],
            forall|j: int| i <= j < n ==> #[trigger] out[j] == 0,
        decreases i,
    {
        i -= 1;
        out[i] = 0;
    }
    proof {
        lemma_lanes_up(rows@, out@, n as int);
    }
    out
}

/// Every row copied `n` rows toward lower indices; the rows that are vacated
/// are zero, and the padding lane is never read into a row.
pub(crate) fn down_rows(rows: &[u16; 16], n: usize) -> (out: [u16; 16])
    requires
        lanes_wf(rows@),
    ensures
        lanes_wf(out@),
        grid_of(out@) == grid_down(grid_of(rows@), n as int),
{
    if n >= 15 {
        proof {
            lemma_shift_off_board(grid_of(rows@), n as int);
        }
        return empty_rows();
    }
    let mut out = *rows;
    let mut i: usize = 0;
    while i + n < 15
        invariant
            i + n <= 15,
            n < 15,
            out[15] == 0,
            forall|j: int| 0 <= j < i ==> #[trigger] out[j] == rows[j + n],
            forall|j: int| i <= j < 16 ==> #[trigger] out[j] == rows[j],
        decreases 15 - i,
    {
        out[i] = out[i + n];
        i += 1;
    }
    while i < 15
        invariant
            15 - n <= i <= 15,
            n < 15,
            out[15] == 0,
            forall|j: int| 0 <= j < 15 - n ==> #[trigger] out[j] == rows[j + n],
            forall|j: int| 15 - n <= j < i ==> #[trigger] out[j] == 0,
        decreases 15 - i,
    {
        out[i] = 0;
        i += 1;
    }
    proof {
        lemma_lanes_down(rows@, out@, n as int);
    }
    out
}

/// Lane by lane `a & b`.
pub(crate) fn and_rows(a: &[u16; 16], b: &[u16; 16]) -> (out: [u16; 16])
    requires
        lanes_wf(a@),
        lanes_wf(b@),
    ensures
        lanes_wf(out@),
        grid_of(out@) == grid_and(grid_of(a@), grid_of(b@)),
{
    let mut out = *a;
    let mut i: usize = 0;
    while i < 16
        invariant
            i <= 16,
            forall|j: int| 0 <= j < i ==> #[trigger] out[j] == a[j] & b[j],
            forall|j: int| i <= j < 16 ==> #[trigger] out[j] == a[j],
        decreases 16 - i,
    {
        out[i] = out[i] & b[i];
        i += 1;
    }
    proof {
        lemma_lanes_and(a@, b@, out@);
    }
    out
}

/// Lane by lane `a | b`.
pub(crate) fn or_rows(a: &[u16; 16], b: &[u16; 16]) -> (out: [u16; 16])
    requires
        lanes_wf(a@),
        lanes_wf(b@),
    ensures
        lanes_wf(out@),
        grid_of(out@) == grid_or(grid_of(a@), grid_of(b@)),
{
    let mut out = *a;
    let mut i: usize = 0;
    while i < 16
        invariant
            i <= 16,
            forall|j: int| 0 <= j < i ==> #[trigger] out[j] == a[j] | b[j],
            forall|j: int| i <= j < 16 ==> #[trigger] out[j] == a[j],
        decreases 16 - i,
    {
        out[i] = out[i] | b[i];
        i += 1;
    }
    proof {
        lemma_lanes_or(a@, b@, out@);
    }
    out
}

/// Lane by lane `a ^ b`.
pub(crate) fn xor_rows(a: &[u16; 16], b: &[u16; 16]) -> (out: [u16; 16])
    requires
        lanes_wf(a@),
        lanes_wf(b@),
    ensures
        lanes_wf(out@),
        grid_of(out@) == grid_xor(grid_of(a@), grid_of(b@)),
{
    let mut out = *a;
    let mut i: usize = 0;
    while i < 16
        invariant
            i <= 16,
            forall|j: int| 0 <= j < i ==> #[trigger] out[j] == a[j] ^ b[j],
            forall|j: int| i <= j < 16 ==> #[trigger] out[j] == a[j],
        decreases 16 - i,
    {
        out[i] = out[i] ^ b[i];
        i += 1;
    }
    proof {
        lemma_lanes_xor(a@, b@, out@);
    }
    out
}

/// Every one of the fifteen rows complemented within its fifteen columns.
pub(crate) fn not_rows(rows: &[u16; 16]) -> (out: [u16; 16])
    ensures
        lanes_wf(out@),
        grid_of(out@) == grid_not(grid_of(rows@)),
{
    let mut out = *rows;
    let mut i: usize = 0;
    while i < 15
        invariant
            i <= 15,
            forall|j: int| 0 <= j < i ==> #[trigger] out[j] == (!rows[j]) & ROW_MAX,
            forall|j: int| i <= j < 16 ==> #[trigger] out[j] == rows[j],
        decreases 15 - i,
    {
        out[i] = (!out[i]) & ROW_MAX;
        i += 1;
    }
    out[15] = 0;
    proof {
        lemma_lanes_not(rows@, out@);
    }
    out
}

/// Whether `a` and `b` hold the same cells. Padding is masked away before
/// the rows are compared, so stray padding bits make no difference.
pub(crate) fn same_rows(a: &[u16; 16], b: &[u16; 16]) -> (same: bool)
    ensures
        same == (grid_of(a@) == grid_of(b@)),
{
    let mut i: usize = 0;
    while i < 15
        invariant
            i <= 15,
            forall|j: int| 0 <= j < i ==> #[trigger] (a[j] & ROW_MAX) == b[j] & ROW_MAX,
        decreases 15 - i,
    {
        if a[i] & ROW_MAX != b[i] & ROW_MAX {
            proof {
                lemma_lanes_same_cells(a@, b@);
                assert((a@[i as int] & ROW_MAX) != b@[i as int] & ROW_MAX);
            }
            return false;
        }
        i += 1;
    }
    proof {
        lemma_lanes_same_cells(a@, b@);
    }
    true
}

} // verus!
