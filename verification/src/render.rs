//! A board as text, for people who debug.

use vstd::prelude::*;
use vstd::string::StringExecFns;
use crate::lanes::{cell, grid_of};

verus! {

/// The text of a board: fifteen lines, row 15 first and row 1 last. A line
/// has one character for each column, column 1 leftmost, `'1'` where the
/// cell is occupied and `'0'` where it is free, and ends with a line feed.
pub open spec fn rendering(g: Set<(int, int)>) -> Seq<char> {
    Seq::new(
        240,
        |i: int|
            if i % 16 == 15 {
                '\n'
            } else if g.contains((14 - i / 16, i % 16)) {
                '1'
            } else {
                '0'
            },
    )
}

/// The text of the board that `rows` holds.
pub fn render_rows(rows: &[u16; 16]) -> (text: String)
    ensures
        text@ == rendering(grid_of(rows@)),
{
    let ghost want = rendering(grid_of(rows@));
    let mut text = String::new();
    let mut line: usize = 0;
    while line < 15
        invariant
            line <= 15,
            want == rendering(grid_of(rows@)),
            text@ == want.subrange(0, 16 * line),
        decreases 15 - line,
    {
        let row: u16 = rows[14 - line];
        let mut col: u16 = 0;
        while col < 15
            invariant
                line < 15,
                col <= 15,
                row == rows[14 - line],
                want == rendering(grid_of(rows@)),
                text@ == want.subrange(0, 16 * line + col),
            decreases 15 - col,
        {
            let ghost at = 16 * line + col;
            assert(at % 16 == col && at / 16 == line);
            assert(grid_of(rows@).contains((14 - line, col as int)) == cell(
                rows@,
                14 - line,
                col as int,
            ));
            if (row >> col) & 1 == 1 {
                proof {
                    reveal_strlit("1");
                }
                text.append("1");
                assert(text@ =~= want.subrange(0, at + 1));
            } else {
                proof {
                    reveal_strlit("0");
                }
                text.append("0");
                assert(text@ =~= want.subrange(0, at + 1));
            }
            col += 1;
        }
        proof {
            reveal_strlit("\n");
        }
        text.append("\n");
        assert(text@ =~= want.subrange(0, 16 * line + 16));
        line += 1;
    }
    assert(text@ =~= want);
    text
}

} // verus!
