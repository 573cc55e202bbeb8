//! The scalar backend: sixteen rows, worked on one after the other.

use vstd::prelude::*;
use std::ops::{BitAnd, BitAndAssign, BitOr, BitOrAssign, BitXor, BitXorAssign, Not};
use vstd::std_specs::cmp::PartialEqSpecImpl;
use vstd::std_specs::ops::{BitAndSpecImpl, BitOrSpecImpl, BitXorSpecImpl, NotSpecImpl};
use crate::board::Location;
use crate::engine::{Bitboard, Lanes};
use crate::grid::{grid_and, grid_not, grid_or, grid_xor};
use crate::lanes::{grid_of, lanes_wf, lemma_grid_determines_lanes};
use crate::render::{render_rows, rendering};
use crate::rows::{
    and_rows, count_rows, down_rows, empty_rows, full_rows, left_rows, masked_rows, not_rows,
    or_rows, right_rows, same_rows, single_rows, up_rows, xor_rows,
};

verus! {

/// A bitboard as an array of sixteen rows.
#[derive(Clone, Copy, Debug)]
pub struct BitboardImpl {
    rows: [u16; 16],
}

impl View for BitboardImpl {
    type V = Set<(int, int)>;

    /// The occupied cells, as zero-based `(row, column)` pairs.
    open spec fn view(&self) -> Set<(int, int)> {
        grid_of(self.lanes())
    }
}

impl Lanes for BitboardImpl {
    closed spec fn lanes(&self) -> Seq<u16> {
        self.rows@
    }
}

impl BitboardImpl {
    #[verifier::type_invariant]
    spec fn padding_clear(self) -> bool {
        lanes_wf(self.rows@)
    }

    /// The value with clear padding whose occupied cells are `g`.
    pub open spec fn of_cells(g: Set<(int, int)>) -> Self {
        choose|b: Self| b.wf() && b@ == g
    }

    /// A value with clear padding is the only one with its cells.
    pub proof fn lemma_of_cells(self)
        requires
            self.wf(),
        ensures
            Self::of_cells(self@) == self,
    {
        let c = Self::of_cells(self@);
        lemma_grid_determines_lanes(c.rows@, self.rows@);
        assert(c.rows =~= self.rows);
    }

    /// The sixteen lanes as they are stored.
    pub fn to_raw(self) -> (rows: [u16; 16])
        ensures
            rows@ == self.lanes(),
            self.wf(),
    {
        proof {
            use_type_invariant(&self);
        }
        self.rows
    }

    /// The board as text: fifteen lines of fifteen characters, row 15 first
    /// and row 1 last, column 1 leftmost, `1` for an occupied cell and `0`
    /// for a free one.
    pub fn render(&self) -> (text: String)
        ensures
            text@ == rendering(self@),
    {
        render_rows(&self.rows)
    }
}

impl Bitboard for BitboardImpl {
    proof fn lemma_view(&self) {
    }

    fn empty() -> (b: Self) {
        BitboardImpl { rows: empty_rows() }
    }

    fn full() -> (b: Self) {
        BitboardImpl { rows: full_rows() }
    }

    fn for_location(l: Location) -> (b: Self) {
        let row = l.row().as_idx();
        let col = l.column().as_idx();
        BitboardImpl { rows: single_rows(row, col) }
    }

    fn new_raw(rows: [u16; 16]) -> (b: Self) {
        BitboardImpl { rows: masked_rows(rows) }
    }

    fn count_ones(self) -> (n: u32) {
        proof {
            use_type_invariant(&self);
        }
        count_rows(&self.rows)
    }

    fn right(self, by: usize) -> (out: Self) {
        BitboardImpl { rows: right_rows(&self.rows, by) }
    }

    fn left(self, by: usize) -> (out: Self) {
        proof {
            use_type_invariant(&self);
        }
        BitboardImpl { rows: left_rows(&self.rows, by) }
    }

    fn up(self, by: usize) -> (out: Self) {
        proof {
            use_type_invariant(&self);
        }
        BitboardImpl { rows: up_rows(&self.rows, by) }
    }

    fn down(self, by: usize) -> (out: Self) {
        proof {
            use_type_invariant(&self);
        }
        BitboardImpl { rows: down_rows(&self.rows, by) }
    }
}

impl PartialEq for BitboardImpl {
    /// Two values are equal when they hold the same cells.
    fn eq(&self, other: &Self) -> (same: bool) {
        same_rows(&self.rows, &other.rows)
    }
}

impl PartialEqSpecImpl for BitboardImpl {
    open spec fn obeys_eq_spec() -> bool {
        true
    }

    open spec fn eq_spec(&self, other: &Self) -> bool {
        self@ == other@
    }
}

impl BitAnd for BitboardImpl {
    type Output = Self;

    /// The cells that are occupied in both.
    fn bitand(self, rhs: Self) -> (out: Self)
        ensures
            out.wf(),
            out@ == grid_and(self@, rhs@),
    {
        proof {
            use_type_invariant(&self);
            use_type_invariant(&rhs);
        }
        let out = BitboardImpl { rows: and_rows(&self.rows, &rhs.rows) };
        proof {
            out.lemma_of_cells();
        }
        out
    }
}

impl BitAndSpecImpl for BitboardImpl {
    open spec fn obeys_bitand_spec() -> bool {
        true
    }

    open spec fn bitand_req(self, rhs: Self) -> bool {
        true
    }

    open spec fn bitand_spec(self, rhs: Self) -> Self {
        Self::of_cells(grid_and(self@, rhs@))
    }
}

impl BitAndAssign for BitboardImpl {
    /// Keeps the cells that are occupied in `rhs` too.
    fn bitand_assign(&mut self, rhs: Self)
        ensures
            final(self).wf(),
            final(self)@ == grid_and(old(self)@, rhs@),
    {
        *self = *self & rhs;
    }
}

impl BitOr for BitboardImpl {
    type Output = Self;

    /// The cells that are occupied in at least one of the two.
    fn bitor(self, rhs: Self) -> (out: Self)
        ensures
            out.wf(),
            out@ == grid_or(self@, rhs@),
    {
        proof {
            use_type_invariant(&self);
            use_type_invariant(&rhs);
        }
        let out = BitboardImpl { rows: or_rows(&self.rows, &rhs.rows) };
        proof {
            out.lemma_of_cells();
        }
        out
    }
}

impl BitOrSpecImpl for BitboardImpl {
    open spec fn obeys_bitor_spec() -> bool {
        true
    }

    open spec fn bitor_req(self, rhs: Self) -> bool {
        true
    }

    open spec fn bitor_spec(self, rhs: Self) -> Self {
        Self::of_cells(grid_or(self@, rhs@))
    }
}

impl BitOrAssign for BitboardImpl {
    /// Adds the cells that are occupied in `rhs`.
    fn bitor_assign(&mut self, rhs: Self)
        ensures
            final(self).wf(),
            final(self)@ == grid_or(old(self)@, rhs@),
    {
        *self = *self | rhs;
    }
}

impl BitXor for BitboardImpl {
    type Output = Self;

    /// The cells that are occupied in exactly one of the two.
    fn bitxor(self, rhs: Self) -> (out: Self)
        ensures
            out.wf(),
            out@ == grid_xor(self@, rhs@),
    {
        proof {
            use_type_invariant(&self);
            use_type_invariant(&rhs);
        }
        let out = BitboardImpl { rows: xor_rows(&self.rows, &rhs.rows) };
        proof {
            out.lemma_of_cells();
        }
        out
    }
}

impl BitXorSpecImpl for BitboardImpl {
    open spec fn obeys_bitxor_spec() -> bool {
        true
    }

    open spec fn bitxor_req(self, rhs: Self) -> bool {
        true
    }

    open spec fn bitxor_spec(self, rhs: Self) -> Self {
        Self::of_cells(grid_xor(self@, rhs@))
    }
}

impl BitXorAssign for BitboardImpl {
    /// Keeps the cells that are occupied in exactly one of `self` and `rhs`.
    fn bitxor_assign(&mut self, rhs: Self)
        ensures
            final(self).wf(),
            final(self)@ == grid_xor(old(self)@, rhs@),
    {
        *self = *self ^ rhs;
    }
}

impl Not for BitboardImpl {
    type Output = Self;

    /// The cells of the board that are free.
    fn not(self) -> (out: Self)
        ensures
            out.wf(),
            out@ == grid_not(self@),
    {
        let out = BitboardImpl { rows: not_rows(&self.rows) };
        proof {
            out.lemma_of_cells();
        }
        out
    }
}

impl NotSpecImpl for BitboardImpl {
    open spec fn obeys_not_spec() -> bool {
        true
    }

    open spec fn not_req(self) -> bool {
        true
    }

    open spec fn not_spec(self) -> Self {
        Self::of_cells(grid_not(self@))
    }
}

} // verus!
