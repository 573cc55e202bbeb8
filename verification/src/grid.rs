//! The mathematical model of a board: the set of its occupied cells.
//!
//! A cell is a pair `(row, column)` of zero-based indices, both in `0..15`.
//! Every board type of this crate has a view of this type, and every
//! operation is specified by what it does to that set.

use vstd::prelude::*;

verus! {

/// Whether `(row, col)` addresses one of the 225 cells of the board.
pub open spec fn on_board(row: int, col: int) -> bool {
    0 <= row < 15 && 0 <= col < 15
}

/// No cell is occupied.
pub open spec fn empty_grid() -> Set<(int, int)> {
    Set::empty()
}

/// Every cell of the board is occupied.
pub open spec fn full_grid() -> Set<(int, int)> {
    Set::new(|p: (int, int)| on_board(p.0, p.1))
}

/// Exactly the cell `(row, col)` is occupied.
pub open spec fn single_grid(row: int, col: int) -> Set<(int, int)> {
    Set::new(|p: (int, int)| p.0 == row && p.1 == col && on_board(row, col))
}

/// A grid holds nothing outside the board.
pub open spec fn grid_wf(g: Set<(int, int)>) -> bool {
    g.subset_of(full_grid())
}

/// `g` moved `n` columns toward higher column indices. What would leave the
/// board is dropped; nothing wraps into another row.
pub open spec fn grid_right(g: Set<(int, int)>, n: int) -> Set<(int, int)> {
    Set::new(|p: (int, int)| on_board(p.0, p.1) && on_board(p.0, p.1 - n) && g.contains((p.0, p.1 - n)))
}

/// `g` moved `n` columns toward lower column indices.
pub open spec fn grid_left(g: Set<(int, int)>, n: int) -> Set<(int, int)> {
    Set::new(|p: (int, int)| on_board(p.0, p.1) && on_board(p.0, p.1 + n) && g.contains((p.0, p.1 + n)))
}

/// `g` moved `n` rows toward higher row indices.
pub open spec fn grid_up(g: Set<(int, int)>, n: int) -> Set<(int, int)> {
    Set::new(|p: (int, int)| on_board(p.0, p.1) && on_board(p.0 - n, p.1) && g.contains((p.0 - n, p.1)))
}

/// `g` moved `n` rows toward lower row indices.
pub open spec fn grid_down(g: Set<(int, int)>, n: int) -> Set<(int, int)> {
    Set::new(|p: (int, int)| on_board(p.0, p.1) && on_board(p.0 + n, p.1) && g.contains((p.0 + n, p.1)))
}

/// The cells of the board that are in both grids.
pub open spec fn grid_and(a: Set<(int, int)>, b: Set<(int, int)>) -> Set<(int, int)> {
    Set::new(|p: (int, int)| on_board(p.0, p.1) && a.contains(p) && b.contains(p))
}

/// The cells of the board that are in at least one of the grids.
pub open spec fn grid_or(a: Set<(int, int)>, b: Set<(int, int)>) -> Set<(int, int)> {
    Set::new(|p: (int, int)| on_board(p.0, p.1) && (a.contains(p) || b.contains(p)))
}

/// The cells of the board that are in exactly one of the grids.
pub open spec fn grid_xor(a: Set<(int, int)>, b: Set<(int, int)>) -> Set<(int, int)> {
    Set::new(|p: (int, int)| on_board(p.0, p.1) && (a.contains(p) != b.contains(p)))
}

/// The cells of the board that are not in `g`.
pub open spec fn grid_not(g: Set<(int, int)>) -> Set<(int, int)> {
    Set::new(|p: (int, int)| on_board(p.0, p.1) && !g.contains(p))
}

/// `g` moved right by one column, `k` times over.
pub open spec fn grid_right_steps(g: Set<(int, int)>, k: nat) -> Set<(int, int)>
    decreases k,
{
    if k == 0 {
        g
    } else {
        grid_right(grid_right_steps(g, (k - 1) as nat), 1)
    }
}

/// `g` moved left by one column, `k` times over.
pub open spec fn grid_left_steps(g: Set<(int, int)>, k: nat) -> Set<(int, int)>
    decreases k,
{
    if k == 0 {
        g
    } else {
        grid_left(grid_left_steps(g, (k - 1) as nat), 1)
    }
}

/// `g` moved up by one row, `k` times over.
pub open spec fn grid_up_steps(g: Set<(int, int)>, k: nat) -> Set<(int, int)>
    decreases k,
{
    if k == 0 {
        g
    } else {
        grid_up(grid_up_steps(g, (k - 1) as nat), 1)
    }
}

/// `g` moved down by one row, `k` times over.
pub open spec fn grid_down_steps(g: Set<(int, int)>, k: nat) -> Set<(int, int)>
    decreases k,
{
    if k == 0 {
        g
    } else {
        grid_down(grid_down_steps(g, (k - 1) as nat), 1)
    }
}

/// A shift by fifteen or more leaves nothing on the board, in any direction.
pub proof fn lemma_shift_off_board(g: Set<(int, int)>, n: int)
    requires
        n >= 15,
    ensures
        grid_right(g, n) == empty_grid(),
        grid_left(g, n) == empty_grid(),
        grid_up(g, n) == empty_grid(),
        grid_down(g, n) == empty_grid(),
{
    assert(grid_right(g, n) =~= empty_grid());
    assert(grid_left(g, n) =~= empty_grid());
    assert(grid_up(g, n) =~= empty_grid());
    assert(grid_down(g, n) =~= empty_grid());
}

} // verus!
