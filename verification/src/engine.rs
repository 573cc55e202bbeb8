//! What every bitboard backend offers, and what each operation must do to
//! the set of occupied cells.

use vstd::prelude::*;
use std::fmt::Debug;
use std::ops::{BitAnd, BitOr, Not};
use crate::board::Location;
use crate::grid::{
    empty_grid, full_grid, grid_down, grid_left, grid_right, grid_up, single_grid,
};
use crate::lanes::{grid_of, lanes_wf};

verus! {

/// The storage of a board: sixteen lanes, of which lane `r` is row `r` and
/// bit `c` of a lane is column `c`. Lane 15 and bit 15 of every lane are
/// padding.
pub trait Lanes {
    /// The sixteen lanes of the value.
    spec fn lanes(&self) -> Seq<u16>;

    /// The padding is zero.
    open spec fn wf(&self) -> bool {
        lanes_wf(self.lanes())
    }
}

/// A set of cells of the 15x15 board, stored in sixteen 16-bit lanes.
///
/// The view of a value is the set of its occupied cells, as zero-based
/// `(row, column)` pairs. Every operation hands out values with clear
/// padding, whatever it was given.
pub trait Bitboard: Copy + Clone + Debug + Not + BitAnd + BitOr + Lanes + View<
    V = Set<(int, int)>,
> {
    /// The view of a value is the set of the cells that its lanes hold.
    proof fn lemma_view(&self)
        ensures
            self@ == grid_of(self.lanes()),
    ;

    /// The value without an occupied cell.
    fn empty() -> (b: Self)
        ensures
            b.wf(),
            b@ == empty_grid(),
    ;

    /// The value with all 225 cells occupied.
    fn full() -> (b: Self)
        ensures
            b.wf(),
            b@ == full_grid(),
    ;

    /// The value in which exactly the cell at `l` is occupied.
    fn for_location(l: Location) -> (b: Self)
        ensures
            b.wf(),
            b@ == single_grid(l@.0, l@.1),
    ;

    /// The value with the cells that `rows` holds; whatever `rows` has in
    /// lane 15 and in bit 15 of a lane is cleared.
    fn new_raw(rows: [u16; 16]) -> (b: Self)
        ensures
            b.wf(),
            b@ == grid_of(rows@),
    ;

    /// The number of occupied cells.
    fn count_ones(self) -> (n: u32)
        ensures
            n == self@.len(),
            n <= 225,
    ;

    /// The value moved `by` columns toward column 15. What leaves the board
    /// is dropped.
    fn right(self, by: usize) -> (out: Self)
        ensures
            out.wf(),
            out@ == grid_right(self@, by as int),
    ;

    /// The value moved `by` columns toward column 1.
    fn left(self, by: usize) -> (out: Self)
        ensures
            out.wf(),
            out@ == grid_left(self@, by as int),
    ;

    /// The value moved `by` rows toward row 15.
    fn up(self, by: usize) -> (out: Self)
        ensures
            out.wf(),
            out@ == grid_up(self@, by as int),
    ;

    /// The value moved `by` rows toward row 1.
    fn down(self, by: usize) -> (out: Self)
        ensures
            out.wf(),
            out@ == grid_down(self@, by as int),
    ;
}

} // verus!
