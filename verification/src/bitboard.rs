//! The bitboard of the game: a set of cells of the 15x15 board, packed into
//! sixteen 16-bit rows, with one-step moves in the four directions.

use vstd::prelude::*;
use std::ops::{BitAnd, BitAndAssign, BitOr, BitOrAssign, BitXor, BitXorAssign, Not};
use vstd::std_specs::cmp::PartialEqSpecImpl;
use vstd::std_specs::ops::{BitAndSpecImpl, BitOrSpecImpl, BitXorSpecImpl, NotSpecImpl};
use crate::board::Location;
use crate::engine::Lanes;
use crate::grid::{
    empty_grid, full_grid, grid_and, grid_down, grid_left, grid_not, grid_or, grid_right, grid_up,
    grid_xor, single_grid,
};
use crate::lanes::{grid_of, lemma_grid_determines_lanes};
use crate::rows::{
    and_rows, count_rows, down_rows, empty_rows, full_rows, left_rows, masked_rows, not_rows,
    or_rows, right_rows, same_rows, single_rows, up_rows, xor_rows,
};
use crate::render::{render_rows, rendering};

verus! {

/// Bitboard for the board of the game.
///
/// * Row-major storage: `rows[0]` is row 1, `rows[14]` is row 15, `rows[15]`
///   is unused and zero.
/// * Bit 0 of a row is column 1, bit 14 is column 15, bit 15 is unused and zero.
///
/// A bitboard with column 1 set is fifteen times `0x0001` and a zero row.
#[derive(Clone, Copy, Debug)]
pub struct Bitboard {
    pub rows: [u16; 16],
}

impl View for Bitboard {
    type V = Set<(int, int)>;

    /// The occupied cells, as zero-based `(row, column)` pairs.
    open spec fn view(&self) -> Set<(int, int)> {
        grid_of(self.rows@)
    }
}

impl Lanes for Bitboard {
    open spec fn lanes(&self) -> Seq<u16> {
        self.rows@
    }
}

impl Bitboard {
    /// The bitboard with clear padding whose occupied cells are `g`.
    pub open spec fn of_cells(g: Set<(int, int)>) -> Self {
        choose|b: Self| b.wf() && b@ == g
    }

    /// A bitboard with clear padding is the only one with its cells.
    pub proof fn lemma_of_cells(self)
        requires
            self.wf(),
        ensures
            Self::of_cells(self@) == self,
    {
        let c = Self::of_cells(self@);
        lemma_grid_determines_lanes(c.rows@, self.rows@);
        assert(c.rows =~= self.rows);
    }

    /// The bitboard without an occupied cell.
    pub fn empty() -> (b: Self)
        ensures
            b.wf(),
            b@ == empty_grid(),
    {
        Bitboard { rows: empty_rows() }
    }

    /// The bitboard with all 225 cells occupied.
    pub fn full() -> (b: Self)
        ensures
            b.wf(),
            b@ == full_grid(),
    {
        Bitboard { rows: full_rows() }
    }

    /// The bitboard in which exactly the cell at `l` is occupied.
    pub fn from_location(l: Location) -> (b: Self)
        ensures
            b.wf(),
            b@ == single_grid(l@.0, l@.1),
    {
        let row = l.row().as_idx();
        let col = l.column().as_idx();
        Self::new_raw(single_rows(row, col))
    }

    /// The bitboard with the cells that `rows` holds. Whatever `rows` has in
    /// the unused row and in the unused bits is cleared.
    pub fn new_raw(rows: [u16; 16]) -> (b: Self)
        ensures
            b.wf(),
            b@ == grid_of(rows@),
    {
        Bitboard { rows: masked_rows(rows) }
    }

    /// The number of occupied cells.
    pub fn count_ones(self) -> (n: u32)
        ensures
            n == self@.len(),
            n <= 225,
    {
        let rows = masked_rows(self.rows);
        count_rows(&rows)
    }

    /// Makes every occupied cell free and every free cell occupied.
    fn invert(&mut self)
        ensures
            final(self).wf(),
            final(self)@ == grid_not(old(self)@),
    {
        self.rows = not_rows(&self.rows);
    }

    /// The bitboard moved by one column toward column 15. What was in
    /// column 15 is dropped.
    pub fn right_one(self) -> (out: Self)
        ensures
            out.wf(),
            out@ == grid_right(self@, 1),
    {
        Bitboard { rows: right_rows(&self.rows, 1) }
    }

    /// The bitboard moved by one column toward column 1. What was in
    /// column 1 is dropped.
    pub fn left_one(self) -> (out: Self)
        ensures
            out.wf(),
            out@ == grid_left(self@, 1),
    {
        let rows = masked_rows(self.rows);
        Bitboard { rows: left_rows(&rows, 1) }
    }

    /// The bitboard moved by one row toward row 15. What was in row 15 is
    /// dropped.
    pub fn up_one(self) -> (out: Self)
        ensures
            out.wf(),
            out@ == grid_up(self@, 1),
    {
        let rows = masked_rows(self.rows);
        Bitboard { rows: up_rows(&rows, 1) }
    }

    /// The bitboard moved by one row toward row 1. What was in row 1 is
    /// dropped.
    pub fn down_one(self) -> (out: Self)
        ensures
            out.wf(),
            out@ == grid_down(self@, 1),
    {
        let rows = masked_rows(self.rows);
        Bitboard { rows: down_rows(&rows, 1) }
    }

    /// The board as text: fifteen lines of fifteen characters, row 15 first
    /// and row 1 last, column 1 leftmost, `1` for an occupied cell and `0`
    /// for a free one.
    pub fn render(&self) -> (text: String)
        ensures
            text@ == rendering(self@),
    {
        render_rows(&self.rows)
    }
}

impl PartialEq for Bitboard {
    /// Two bitboards are equal when they hold the same cells; the unused row
    /// and the unused bits are not looked at.
    fn eq(&self, other: &Self) -> (same: bool) {
        same_rows(&self.rows, &other.rows)
    }
}

impl PartialEqSpecImpl for Bitboard {
    open spec fn obeys_eq_spec() -> bool {
        true
    }

    open spec fn eq_spec(&self, other: &Self) -> bool {
        self@ == other@
    }
}

impl BitAndAssign for Bitboard {
    /// Keeps the cells that are occupied in `rhs` too.
    fn bitand_assign(&mut self, rhs: Self)
        ensures
            final(self).wf(),
            final(self)@ == grid_and(old(self)@, rhs@),
    {
        let a = masked_rows(self.rows);
        let b = masked_rows(rhs.rows);
        self.rows = and_rows(&a, &b);
    }
}

impl BitAnd for Bitboard {
    type Output = Self;

    /// The cells that are occupied in both.
    fn bitand(self, rhs: Self) -> (out: Self)
        ensures
            out.wf(),
            out@ == grid_and(self@, rhs@),
    {
        let mut out = self;
        out.bitand_assign(rhs);
        proof {
            out.lemma_of_cells();
        }
        out
    }
}

impl BitAndSpecImpl for Bitboard {
    open spec fn obeys_bitand_spec() -> bool {
        true
    }

    open spec fn bitand_req(self, rhs: Self) -> bool {
        true
    }

    open spec fn bitand_spec(self, rhs: Self) -> Self {
        Self::of_cells(grid_and(self@, rhs@))
    }
}

impl BitOrAssign for Bitboard {
    /// Adds the cells that are occupied in `rhs`.
    fn bitor_assign(&mut self, rhs: Self)
        ensures
            final(self).wf(),
            final(self)@ == grid_or(old(self)@, rhs@),
    {
        let a = masked_rows(self.rows);
        let b = masked_rows(rhs.rows);
        self.rows = or_rows(&a, &b);
    }
}

impl BitOr for Bitboard {
    type Output = Self;

    /// The cells that are occupied in at least one of the two.
    fn bitor(self, rhs: Self) -> (out: Self)
        ensures
            out.wf(),
            out@ == grid_or(self@, rhs@),
    {
        let mut out = self;
        out.bitor_assign(rhs);
        proof {
            out.lemma_of_cells();
        }
        out
    }
}

impl BitOrSpecImpl for Bitboard {
    open spec fn obeys_bitor_spec() -> bool {
        true
    }

    open spec fn bitor_req(self, rhs: Self) -> bool {
        true
    }

    open spec fn bitor_spec(self, rhs: Self) -> Self {
        Self::of_cells(grid_or(self@, rhs@))
    }
}

impl BitXorAssign for Bitboard {
    /// Keeps the cells that are occupied in exactly one of `self` and `rhs`.
    fn bitxor_assign(&mut self, rhs: Self)
        ensures
            final(self).wf(),
            final(self)@ == grid_xor(old(self)@, rhs@),
    {
        let a = masked_rows(self.rows);
        let b = masked_rows(rhs.rows);
        self.rows = xor_rows(&a, &b);
    }
}

impl BitXor for Bitboard {
    type Output = Self;

    /// The cells that are occupied in exactly one of the two.
    fn bitxor(self, rhs: Self) -> (out: Self)
        ensures
            out.wf(),
            out@ == grid_xor(self@, rhs@),
    {
        let mut out = self;
        out.bitxor_assign(rhs);
        proof {
            out.lemma_of_cells();
        }
        out
    }
}

impl BitXorSpecImpl for Bitboard {
    open spec fn obeys_bitxor_spec() -> bool {
        true
    }

    open spec fn bitxor_req(self, rhs: Self) -> bool {
        true
    }

    open spec fn bitxor_spec(self, rhs: Self) -> Self {
        Self::of_cells(grid_xor(self@, rhs@))
    }
}

impl Not for Bitboard {
    type Output = Self;

    /// The cells of the board that are free.
    fn not(self) -> (out: Self)
        ensures
            out.wf(),
            out@ == grid_not(self@),
    {
        let mut out = self;
        out.invert();
        proof {
            out.lemma_of_cells();
        }
        out
    }
}

impl NotSpecImpl for Bitboard {
    open spec fn obeys_not_spec() -> bool {
        true
    }

    open spec fn not_req(self) -> bool {
        true
    }

    open spec fn not_spec(self) -> Self {
        Self::of_cells(grid_not(self@))
    }
}

} // verus!
