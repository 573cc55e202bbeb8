//! What holds of every board, whichever type stores it.
//!
//! The laws speak of grids, the sets of occupied cells that are the view of
//! every board type. Two boards are equal when their grids are.

use vstd::prelude::*;
use vstd::std_specs::cmp::PartialEqSpec;
use crate::bitboard::Bitboard;
use crate::engine::Lanes;
use crate::grid::{
    empty_grid, full_grid, grid_and, grid_down, grid_down_steps, grid_left, grid_left_steps,
    grid_not, grid_or, grid_right, grid_right_steps, grid_up, grid_up_steps, grid_wf,
    grid_xor, lemma_shift_off_board,
};
use crate::lanes::{
    cells_below, grid_of, lemma_bit_const, lemma_grid_determines_lanes, lemma_grid_len,
    lemma_lanes_full, ones_below, ROW_MAX,
};

verus! {

/// The cells of any sixteen lanes lie on the board, so the view of every
/// board is a well-formed grid.
pub proof fn law_view_on_board(lanes: Seq<u16>)
    ensures
        grid_wf(grid_of(lanes)),
{
}

/// Boards of the two backends that hold the same cells have the same lanes,
/// bit for bit.
pub proof fn law_backends_agree(s: crate::scalar::BitboardImpl, w: crate::wide::BitboardImpl)
    requires
        s.wf(),
        w.wf(),
        s@ == w@,
    ensures
        s.lanes() == w.lanes(),
{
    lemma_grid_determines_lanes(s.lanes(), w.lanes());
}

proof fn lemma_full_row_ones(k: nat)
    requires
        k <= 15,
    ensures
        ones_below(ROW_MAX, k) == k,
    decreases k,
{
    if k > 0 {
        lemma_full_row_ones((k - 1) as nat);
        lemma_bit_const((k - 1) as u16);
    }
}

proof fn lemma_full_cells_below(lanes: Seq<u16>, k: nat)
    requires
        k <= 15,
        forall|r: int| 0 <= r < 15 ==> #[trigger] lanes[r] == ROW_MAX,
    ensures
        cells_below(lanes, k) == 15 * k,
    decreases k,
{
    if k > 0 {
        lemma_full_cells_below(lanes, (k - 1) as nat);
        lemma_full_row_ones(15);
    }
}

/// The full board has 225 occupied cells and the empty board has none.
pub proof fn law_count()
    ensures
        full_grid().finite(),
        full_grid().len() == 225,
        empty_grid().len() == 0,
{
    let lanes = Seq::new(16, |r: int| if r < 15 { ROW_MAX } else { 0u16 });
    lemma_lanes_full(lanes);
    lemma_grid_len(lanes);
    lemma_full_cells_below(lanes, 15);
}

/// A move to the right by `n` columns is `n` moves to the right by one column.
pub proof fn law_right_decomposition(g: Set<(int, int)>, n: nat)
    requires
        grid_wf(g),
    ensures
        grid_right(g, n as int) == grid_right_steps(g, n),
    decreases n,
{
    if n == 0 {
        assert(grid_right(g, 0) =~= g);
    } else {
        law_right_decomposition(g, (n - 1) as nat);
        assert(grid_right(g, n as int) =~= grid_right(grid_right(g, n - 1), 1));
    }
}

/// A move to the left by `n` columns is `n` moves to the left by one column.
pub proof fn law_left_decomposition(g: Set<(int, int)>, n: nat)
    requires
        grid_wf(g),
    ensures
        grid_left(g, n as int) == grid_left_steps(g, n),
    decreases n,
{
    if n == 0 {
        assert(grid_left(g, 0) =~= g);
    } else {
        law_left_decomposition(g, (n - 1) as nat);
        assert(grid_left(g, n as int) =~= grid_left(grid_left(g, n - 1), 1));
    }
}

/// A move up by `n` rows is `n` moves up by one row.
pub proof fn law_up_decomposition(g: Set<(int, int)>, n: nat)
    requires
        grid_wf(g),
    ensures
        grid_up(g, n as int) == grid_up_steps(g, n),
    decreases n,
{
    if n == 0 {
        assert(grid_up(g, 0) =~= g);
    } else {
        law_up_decomposition(g, (n - 1) as nat);
        assert(grid_up(g, n as int) =~= grid_up(grid_up(g, n - 1), 1));
    }
}

/// A move down by `n` rows is `n` moves down by one row.
pub proof fn law_down_decomposition(g: Set<(int, int)>, n: nat)
    requires
        grid_wf(g),
    ensures
        grid_down(g, n as int) == grid_down_steps(g, n),
    decreases n,
{
    if n == 0 {
        assert(grid_down(g, 0) =~= g);
    } else {
        law_down_decomposition(g, (n - 1) as nat);
        assert(grid_down(g, n as int) =~= grid_down(grid_down(g, n - 1), 1));
    }
}

/// Fourteen single steps in one direction leave something of the full
/// board; the fifteenth step leaves nothing.
pub proof fn law_full_saturates()
    ensures
        grid_right_steps(full_grid(), 14) != empty_grid(),
        grid_right_steps(full_grid(), 15) == empty_grid(),
        grid_left_steps(full_grid(), 14) != empty_grid(),
        grid_left_steps(full_grid(), 15) == empty_grid(),
        grid_up_steps(full_grid(), 14) != empty_grid(),
        grid_up_steps(full_grid(), 15) == empty_grid(),
        grid_down_steps(full_grid(), 14) != empty_grid(),
        grid_down_steps(full_grid(), 15) == empty_grid(),
{
    let full = full_grid();
    law_right_decomposition(full, 14);
    law_right_decomposition(full, 15);
    law_left_decomposition(full, 14);
    law_left_decomposition(full, 15);
    law_up_decomposition(full, 14);
    law_up_decomposition(full, 15);
    law_down_decomposition(full, 14);
    law_down_decomposition(full, 15);
    lemma_shift_off_board(full, 15);
    assert(full.contains((0int, 0int)));
    assert(full.contains((14int, 14int)));
    assert(grid_right(full, 14).contains((0int, 14int)));
    assert(grid_left(full, 14).contains((0int, 0int)));
    assert(grid_up(full, 14).contains((14int, 0int)));
    assert(grid_down(full, 14).contains((0int, 0int)));
}

/// And with the full board and or with the empty board change nothing.
pub proof fn law_identity(g: Set<(int, int)>)
    requires
        grid_wf(g),
    ensures
        grid_and(g, full_grid()) == g,
        grid_or(g, empty_grid()) == g,
{
    assert(grid_and(g, full_grid()) =~= g);
    assert(grid_or(g, empty_grid()) =~= g);
}

/// And with the empty board is empty, or with the full board is full.
pub proof fn law_absorption(g: Set<(int, int)>)
    ensures
        grid_and(g, empty_grid()) == empty_grid(),
        grid_or(g, full_grid()) == full_grid(),
{
    assert(grid_and(g, empty_grid()) =~= empty_grid());
    assert(grid_or(g, full_grid()) =~= full_grid());
}

/// Not undoes itself, and turns the empty board into the full one and back.
pub proof fn law_not(g: Set<(int, int)>)
    requires
        grid_wf(g),
    ensures
        grid_not(grid_not(g)) == g,
        grid_not(empty_grid()) == full_grid(),
        grid_not(full_grid()) == empty_grid(),
        grid_not(g) == grid_xor(g, full_grid()),
{
    assert(grid_not(grid_not(g)) =~= g);
    assert(grid_not(empty_grid()) =~= full_grid());
    assert(grid_not(full_grid()) =~= empty_grid());
    assert(grid_not(g) =~= grid_xor(g, full_grid()));
}

/// Every bitboard equals itself, whatever its padding holds.
pub proof fn law_eq_reflexive(b: Bitboard)
    ensures
        b.eq_spec(&b),
{
}

/// Every board of the scalar backend equals itself.
pub proof fn law_scalar_eq_reflexive(b: crate::scalar::BitboardImpl)
    ensures
        b.eq_spec(&b),
{
}

/// Every board of the vectorized backend equals itself.
pub proof fn law_wide_eq_reflexive(b: crate::wide::BitboardImpl)
    ensures
        b.eq_spec(&b),
{
}

} // verus!
