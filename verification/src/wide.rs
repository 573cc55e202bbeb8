//! The vectorized backend: the sixteen lanes go through 128-bit registers,
//! eight lanes at a time, so that one instruction shifts or combines them all.

use vstd::prelude::*;
use std::ops::{BitAnd, BitAndAssign, BitOr, BitOrAssign, BitXor, BitXorAssign, Not};
use vstd::std_specs::cmp::PartialEqSpecImpl;
use vstd::std_specs::ops::{BitAndSpecImpl, BitOrSpecImpl, BitXorSpecImpl, NotSpecImpl};
use crate::board::Location;
use crate::engine::{Bitboard, Lanes};
use crate::grid::{grid_and, grid_not, grid_or, grid_xor, lemma_shift_off_board};
use crate::lanes::{
    grid_of, lanes_wf, lemma_full_lanes, lemma_grid_determines_lanes, lemma_lane_xor_zero, lemma_lane_zero,
    lemma_lanes_and, lemma_lanes_down, lemma_lanes_empty, lemma_lanes_left, lemma_lanes_masked,
    lemma_lanes_or, lemma_lanes_right, lemma_lanes_up, lemma_lanes_xor, ROW_MAX,
};
use crate::render::{render_rows, rendering};
use crate::rows::{count_rows, full_rows, single_rows};

verus! {

/// Calls `safe_arch::shl_all_u16_m128i`, which shifts every 16-bit lane of a
/// register to the left by one count and fills with zeros. Counts above 15
/// are left out.
#[verifier::external_body]
fn shl_lanes(lanes: [u16; 8], count: u16) -> (out: [u16; 8])
    requires
        count <= 15,
    ensures
        forall|i: int| 0 <= i < 8 ==> #[trigger] out[i] == lanes[i] << count,
{
    let count = safe_arch::m128i::from(count as u128);
    safe_arch::shl_all_u16_m128i(safe_arch::m128i::from(lanes), count).into()
}

/// Calls `safe_arch::shr_all_i16_m128i`, which shifts every 16-bit lane of a
/// register to the right by one count and fills with the lane's sign bit.
/// Of a lane whose sign bit is clear this is the plain shift to the right;
/// of the others nothing is said. Counts above 15 are left out.
#[verifier::external_body]
fn shr_lanes(lanes: [u16; 8], count: u16) -> (out: [u16; 8])
    requires
        count <= 15,
    ensures
        forall|i: int| 0 <= i < 8 && lanes[i] <= ROW_MAX ==> #[trigger] out[i] == lanes[i] >> count,
{
    let count = safe_arch::m128i::from(count as u128);
    safe_arch::shr_all_i16_m128i(safe_arch::m128i::from(lanes), count).into()
}

/// Calls `&` of `safe_arch::m128i`: the bitwise and of two registers.
#[verifier::external_body]
fn and_lanes(a: [u16; 8], b: [u16; 8]) -> (out: [u16; 8])
    ensures
        forall|i: int| 0 <= i < 8 ==> #[trigger] out[i] == a[i] & b[i],
{
    (safe_arch::m128i::from(a) & safe_arch::m128i::from(b)).into()
}

/// Calls `|` of `safe_arch::m128i`: the bitwise or of two registers.
#[verifier::external_body]
fn or_lanes(a: [u16; 8], b: [u16; 8]) -> (out: [u16; 8])
    ensures
        forall|i: int| 0 <= i < 8 ==> #[trigger] out[i] == a[i] | b[i],
{
    (safe_arch::m128i::from(a) | safe_arch::m128i::from(b)).into()
}

/// Calls `^` of `safe_arch::m128i`: the bitwise exclusive or of two registers.
#[verifier::external_body]
fn xor_lanes(a: [u16; 8], b: [u16; 8]) -> (out: [u16; 8])
    ensures
        forall|i: int| 0 <= i < 8 ==> #[trigger] out[i] == a[i] ^ b[i],
{
    (safe_arch::m128i::from(a) ^ safe_arch::m128i::from(b)).into()
}

/// Calls `==` of `safe_arch::m128i`, which holds when all the bits of the two
/// registers agree.
#[verifier::external_body]
fn eq_lanes(a: [u16; 8], b: [u16; 8]) -> (same: bool)
    ensures
        same == (forall|i: int| 0 <= i < 8 ==> #[trigger] a[i] == b[i]),
{
    safe_arch::m128i::from(a) == safe_arch::m128i::from(b)
}

/// Calls `safe_arch::zeroed_m128i`: a register of zero bits.
#[verifier::external_body]
fn zeroed_lanes() -> (out: [u16; 8])
    ensures
        forall|i: int| 0 <= i < 8 ==> #[trigger] out[i] == 0,
{
    safe_arch::zeroed_m128i().into()
}

/// Calls `rotate_right` of `std`'s slices: the last `k` lanes move to the
/// front and the others `k` places toward the end.
#[verifier::external_body]
fn rotate_lanes_right(rows: &mut [u16; 16], k: usize)
    requires
        k <= 16,
    ensures
        forall|i: int| 0 <= i < 16 ==> #[trigger] final(rows)[i] == old(rows)[(i + 16 - k) % 16],
{
    rows.rotate_right(k)
}

/// Calls `rotate_left` of `std`'s slices: the first `k` lanes move to the
/// end and the others `k` places toward the front.
#[verifier::external_body]
fn rotate_lanes_left(rows: &mut [u16; 16], k: usize)
    requires
        k <= 16,
    ensures
        forall|i: int| 0 <= i < 16 ==> #[trigger] final(rows)[i] == old(rows)[(i + k) % 16],
{
    rows.rotate_left(k)
}

/// The lanes 0 to 7: what goes into the first register.
fn low_half(rows: &[u16; 16]) -> (out: [u16; 8])
    ensures
        forall|i: int| 0 <= i < 8 ==> #[trigger] out[i] == rows[i],
{
    [rows[0], rows[1], rows[2], rows[3], rows[4], rows[5], rows[6], rows[7]]
}

/// The lanes 8 to 15: what goes into the second register.
fn high_half(rows: &[u16; 16]) -> (out: [u16; 8])
    ensures
        forall|i: int| 0 <= i < 8 ==> #[trigger] out[i] == rows[i + 8],
{
    [rows[8], rows[9], rows[10], rows[11], rows[12], rows[13], rows[14], rows[15]]
}

/// The sixteen lanes of two registers, the first register first.
fn joined(low: &[u16; 8], high: &[u16; 8]) -> (out: [u16; 16])
    ensures
        forall|i: int| 0 <= i < 8 ==> #[trigger] out[i] == low[i],
        forall|i: int| 8 <= i < 16 ==> #[trigger] out[i] == high[i - 8],
{
    [
        low[0],
        low[1],
        low[2],
        low[3],
        low[4],
        low[5],
        low[6],
        low[7],
        high[0],
        high[1],
        high[2],
        high[3],
        high[4],
        high[5],
        high[6],
        high[7],
    ]
}

/// All sixteen lanes shifted to the left by `count`.
fn shl_all(rows: &[u16; 16], count: u16) -> (out: [u16; 16])
    requires
        count <= 15,
    ensures
        forall|i: int| 0 <= i < 16 ==> #[trigger] out[i] == rows[i] << count,
{
    let low = shl_lanes(low_half(rows), count);
    let high = shl_lanes(high_half(rows), count);
    joined(&low, &high)
}

/// All sixteen lanes shifted to the right by `count`.
fn shr_all(rows: &[u16; 16], count: u16) -> (out: [u16; 16])
    requires
        count <= 15,
        forall|i: int| 0 <= i < 16 ==> #[trigger] rows[i] <= ROW_MAX,
    ensures
        forall|i: int| 0 <= i < 16 ==> #[trigger] out[i] == rows[i] >> count,
{
    let low = shr_lanes(low_half(rows), count);
    let high = shr_lanes(high_half(rows), count);
    joined(&low, &high)
}

/// Lane by lane `a & b`.
fn and_all(a: &[u16; 16], b: &[u16; 16]) -> (out: [u16; 16])
    ensures
        forall|i: int| 0 <= i < 16 ==> #[trigger] out[i] == a[i] & b[i],
{
    let low = and_lanes(low_half(a), low_half(b));
    let high = and_lanes(high_half(a), high_half(b));
    joined(&low, &high)
}

/// Lane by lane `a | b`.
fn or_all(a: &[u16; 16], b: &[u16; 16]) -> (out: [u16; 16])
    ensures
        forall|i: int| 0 <= i < 16 ==> #[trigger] out[i] == a[i] | b[i],
{
    let low = or_lanes(low_half(a), low_half(b));
    let high = or_lanes(high_half(a), high_half(b));
    joined(&low, &high)
}

/// Lane by lane `a ^ b`.
fn xor_all(a: &[u16; 16], b: &[u16; 16]) -> (out: [u16; 16])
    ensures
        forall|i: int| 0 <= i < 16 ==> #[trigger] out[i] == a[i] ^ b[i],
{
    let low = xor_lanes(low_half(a), low_half(b));
    let high = xor_lanes(high_half(a), high_half(b));
    joined(&low, &high)
}

/// Whether all sixteen lanes of `a` and `b` agree.
fn eq_all(a: &[u16; 16], b: &[u16; 16]) -> (same: bool)
    ensures
        same == (a@ == b@),
{
    let (a_low, a_high) = (low_half(a), high_half(a));
    let (b_low, b_high) = (low_half(b), high_half(b));
    let low = eq_lanes(a_low, b_low);
    let high = eq_lanes(a_high, b_high);
    proof {
        if low && high {
            assert forall|i: int| 0 <= i < 16 implies a@[i] == b@[i] by {
                if i < 8 {
                    assert(a_low[i] == b_low[i]);
                } else {
                    assert(a_high[i - 8] == b_high[i - 8]);
                }
            }
            assert(a@ =~= b@);
        }
        if a@ == b@ {
            assert forall|i: int| 0 <= i < 8 implies #[trigger] a_low[i] == b_low[i] by {
                assert(a@[i] == b@[i]);
            }
            assert forall|i: int| 0 <= i < 8 implies #[trigger] a_high[i] == b_high[i] by {
                assert(a@[i + 8] == b@[i + 8]);
            }
        }
    }
    low && high
}

/// Sixteen zero lanes.
fn zeroed_all() -> (out: [u16; 16])
    ensures
        forall|i: int| 0 <= i < 16 ==> #[trigger] out[i] == 0,
{
    let low = zeroed_lanes();
    let high = zeroed_lanes();
    joined(&low, &high)
}

/// A bitboard whose lanes are worked on eight at a time.
#[derive(Clone, Copy, Debug)]
pub struct BitboardImpl {
    rows: [u16; 16],
}

impl View for BitboardImpl {
    type V = Set<(int, int)>;

    /// The occupied cells, as zero-based `(row, column)` pairs.
    open spec fn view(&self) -> Set<(int, int)> {
        grid_of(self.lanes())
    }
}

impl Lanes for BitboardImpl {
    closed spec fn lanes(&self) -> Seq<u16> {
        self.rows@
    }
}

impl BitboardImpl {
    #[verifier::type_invariant]
    spec fn padding_clear(self) -> bool {
        lanes_wf(self.rows@)
    }

    /// The value with clear padding whose occupied cells are `g`.
    pub open spec fn of_cells(g: Set<(int, int)>) -> Self {
        choose|b: Self| b.wf() && b@ == g
    }

    /// A value with clear padding is the only one with its cells.
    pub proof fn lemma_of_cells(self)
        requires
            self.wf(),
        ensures
            Self::of_cells(self@) == self,
    {
        let c = Self::of_cells(self@);
        lemma_grid_determines_lanes(c.rows@, self.rows@);
        assert(c.rows =~= self.rows);
    }

    /// The sixteen lanes as they are stored.
    pub fn to_raw(self) -> (rows: [u16; 16])
        ensures
            rows@ == self.lanes(),
            self.wf(),
    {
        proof {
            use_type_invariant(&self);
        }
        self.rows
    }

    /// The board as text: fifteen lines of fifteen characters, row 15 first
    /// and row 1 last, column 1 leftmost, `1` for an occupied cell and `0`
    /// for a free one.
    pub fn render(&self) -> (text: String)
        ensures
            text@ == rendering(self@),
    {
        render_rows(&self.rows)
    }
}

impl Bitboard for BitboardImpl {
    proof fn lemma_view(&self) {
    }

    fn empty() -> (b: Self) {
        let rows = zeroed_all();
        proof {
            lemma_lanes_empty(rows@);
        }
        BitboardImpl { rows }
    }

    fn full() -> (b: Self) {
        BitboardImpl { rows: full_rows() }
    }

    fn for_location(l: Location) -> (b: Self) {
        let row = l.row().as_idx();
        let col = l.column().as_idx();
        Self::new_raw(single_rows(row, col))
    }

    fn new_raw(rows: [u16; 16]) -> (b: Self) {
        let mut rows = rows;
        rows[15] = 0;
        let full = full_rows();
        let masked = and_all(&rows, &full);
        proof {
            lemma_lane_zero(0, 0);
            assert forall|r: int| 0 <= r < 15 implies #[trigger] masked@[r] == rows@[r]
                & ROW_MAX by {
                lemma_full_lanes(full@, r);
            }
            lemma_lanes_masked(rows@, masked@);
        }
        BitboardImpl { rows: masked }
    }

    fn count_ones(self) -> (n: u32) {
        proof {
            use_type_invariant(&self);
        }
        count_rows(&self.rows)
    }

    fn right(self, by: usize) -> (out: Self) {
        if by >= 15 {
            proof {
                lemma_shift_off_board(self@, by as int);
            }
            return Self::empty();
        }
        let count: u16 = by as u16;
        let tmp = shl_all(&self.rows, count);
        let full = full_rows();
        let rows = and_all(&tmp, &full);
        proof {
            lemma_lane_zero(tmp@[15], 0);
            assert forall|r: int| 0 <= r < 15 implies #[trigger] rows@[r] == (self.rows@[r]
                << count) & ROW_MAX by {
                lemma_full_lanes(full@, r);
            }
            lemma_lanes_right(self.rows@, rows@, count);
        }
        BitboardImpl { rows }
    }

    fn left(self, by: usize) -> (out: Self) {
        proof {
            use_type_invariant(&self);
        }
        if by >= 15 {
            proof {
                lemma_shift_off_board(self@, by as int);
            }
            return Self::empty();
        }
        let count: u16 = by as u16;
        let rows = shr_all(&self.rows, count);
        proof {
            lemma_lane_zero(0, count);
            lemma_lanes_left(self.rows@, rows@, count);
        }
        BitboardImpl { rows }
    }

    fn up(self, by: usize) -> (out: Self) {
        proof {
            use_type_invariant(&self);
        }
        if by >= 15 {
            proof {
                lemma_shift_off_board(self@, by as int);
            }
            return Self::empty();
        }
        let mut rows: [u16; 16] = self.rows;
        rotate_lanes_right(&mut rows, by);
        let mut i: usize = 0;
        while i < by
            invariant
                i <= by < 15,
                forall|j: int| 0 <= j < i ==> #[trigger] rows[j] == 0,
                forall|j: int| by <= j < 16 ==> #[trigger] rows[j] == self.rows[j - by],
            decreases by - i,
        {
            rows[i] = 0;
            i += 1;
        }
        rows[15] = 0;
        proof {
            lemma_lanes_up(self.rows@, rows@, by as int);
        }
        BitboardImpl { rows }
    }

    fn down(self, by: usize) -> (out: Self) {
        proof {
            use_type_invariant(&self);
        }
        if by >= 15 {
            proof {
                lemma_shift_off_board(self@, by as int);
            }
            return Self::empty();
        }
        let mut rows: [u16; 16] = self.rows;
        rotate_lanes_left(&mut rows, by);
        let mut i: usize = by;
        while i > 0
            invariant
                i <= by < 15,
                forall|j: int| 15 - by <= j < 15 - i ==> #[trigger] rows[j] == 0,
                forall|j: int| 0 <= j < 15 - by ==> #[trigger] rows[j] == self.rows[j + by],
            decreases i,
        {
            i -= 1;
            rows[14 - i] = 0;
        }
        rows[15] = 0;
        proof {
            lemma_lanes_down(self.rows@, rows@, by as int);
        }
        BitboardImpl { rows }
    }
}

impl PartialEq for BitboardImpl {
    /// Two values are equal when they hold the same cells: when their
    /// exclusive or is the empty board.
    fn eq(&self, other: &Self) -> (same: bool) {
        proof {
            use_type_invariant(self);
            use_type_invariant(other);
        }
        let diff = xor_all(&self.rows, &other.rows);
        let zero = zeroed_all();
        let same = eq_all(&diff, &zero);
        proof {
            if same {
                assert forall|r: int| 0 <= r < 16 implies self.rows@[r] == other.rows@[r] by {
                    assert(diff@[r] == zero@[r]);
                    lemma_lane_xor_zero(self.rows@[r], other.rows@[r]);
                }
                assert(self.rows@ =~= other.rows@);
            }
            if self@ == other@ {
                lemma_grid_determines_lanes(self.rows@, other.rows@);
                assert forall|r: int| 0 <= r < 16 implies diff@[r] == zero@[r] by {
                    lemma_lane_xor_zero(self.rows@[r], other.rows@[r]);
                }
                assert(diff@ =~= zero@);
            }
        }
        same
    }
}

impl PartialEqSpecImpl for BitboardImpl {
    open spec fn obeys_eq_spec() -> bool {
        true
    }

    open spec fn eq_spec(&self, other: &Self) -> bool {
        self@ == other@
    }
}

impl BitAnd for BitboardImpl {
    type Output = Self;

    /// The cells that are occupied in both.
    fn bitand(self, rhs: Self) -> (out: Self)
        ensures
            out.wf(),
            out@ == grid_and(self@, rhs@),
    {
        proof {
            use_type_invariant(&self);
            use_type_invariant(&rhs);
        }
        let rows = and_all(&self.rows, &rhs.rows);
        proof {
            lemma_lanes_and(self.rows@, rhs.rows@, rows@);
        }
        let out = BitboardImpl { rows };
        proof {
            out.lemma_of_cells();
        }
        out
    }
}

impl BitAndSpecImpl for BitboardImpl {
    open spec fn obeys_bitand_spec() -> bool {
        true
    }

    open spec fn bitand_req(self, rhs: Self) -> bool {
        true
    }

    open spec fn bitand_spec(self, rhs: Self) -> Self {
        Self::of_cells(grid_and(self@, rhs@))
    }
}

impl BitAndAssign for BitboardImpl {
    /// Keeps the cells that are occupied in `rhs` too.
    fn bitand_assign(&mut self, rhs: Self)
        ensures
            final(self).wf(),
            final(self)@ == grid_and(old(self)@, rhs@),
    {
        *self = *self & rhs;
    }
}

impl BitOr for BitboardImpl {
    type Output = Self;

    /// The cells that are occupied in at least one of the two.
    fn bitor(self, rhs: Self) -> (out: Self)
        ensures
            out.wf(),
            out@ == grid_or(self@, rhs@),
    {
        proof {
            use_type_invariant(&self);
            use_type_invariant(&rhs);
        }
        let rows = or_all(&self.rows, &rhs.rows);
        proof {
            lemma_lanes_or(self.rows@, rhs.rows@, rows@);
        }
        let out = BitboardImpl { rows };
        proof {
            out.lemma_of_cells();
        }
        out
    }
}

impl BitOrSpecImpl for BitboardImpl {
    open spec fn obeys_bitor_spec() -> bool {
        true
    }

    open spec fn bitor_req(self, rhs: Self) -> bool {
        true
    }

    open spec fn bitor_spec(self, rhs: Self) -> Self {
        Self::of_cells(grid_or(self@, rhs@))
    }
}

impl BitOrAssign for BitboardImpl {
    /// Adds the cells that are occupied in `rhs`.
    fn bitor_assign(&mut self, rhs: Self)
        ensures
            final(self).wf(),
            final(self)@ == grid_or(old(self)@, rhs@),
    {
        *self = *self | rhs;
    }
}

impl BitXor for BitboardImpl {
    type Output = Self;

    /// The cells that are occupied in exactly one of the two.
    fn bitxor(self, rhs: Self) -> (out: Self)
        ensures
            out.wf(),
            out@ == grid_xor(self@, rhs@),
    {
        proof {
            use_type_invariant(&self);
            use_type_invariant(&rhs);
        }
        let rows = xor_all(&self.rows, &rhs.rows);
        proof {
            lemma_lanes_xor(self.rows@, rhs.rows@, rows@);
        }
        let out = BitboardImpl { rows };
        proof {
            out.lemma_of_cells();
        }
        out
    }
}

impl BitXorSpecImpl for BitboardImpl {
    open spec fn obeys_bitxor_spec() -> bool {
        true
    }

    open spec fn bitxor_req(self, rhs: Self) -> bool {
        true
    }

    open spec fn bitxor_spec(self, rhs: Self) -> Self {
        Self::of_cells(grid_xor(self@, rhs@))
    }
}

impl BitXorAssign for BitboardImpl {
    /// Keeps the cells that are occupied in exactly one of `self` and `rhs`.
    fn bitxor_assign(&mut self, rhs: Self)
        ensures
            final(self).wf(),
            final(self)@ == grid_xor(old(self)@, rhs@),
    {
        *self = *self ^ rhs;
    }
}

impl Not for BitboardImpl {
    type Output = Self;

    /// The cells of the board that are free: the exclusive or with the full
    /// board, which leaves the padding clear.
    fn not(self) -> (out: Self)
        ensures
            out.wf(),
            out@ == grid_not(self@),
    {
        let full = Self::full();
        let out = self ^ full;
        proof {
            assert(grid_xor(self@, full@) =~= grid_not(self@));
            out.lemma_of_cells();
        }
        out
    }
}

impl NotSpecImpl for BitboardImpl {
    open spec fn obeys_not_spec() -> bool {
        true
    }

    open spec fn not_req(self) -> bool {
        true
    }

    open spec fn not_spec(self) -> Self {
        Self::of_cells(grid_not(self@))
    }
}

} // verus!
