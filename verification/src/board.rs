//! Coordinates, locations and the aggregate state of a game board.

use vstd::prelude::*;
use std::ops::Index;
use crate::bitboard::Bitboard;
use crate::engine::Lanes;
use crate::grid::empty_grid;

verus! {

/// One of the two players.
pub enum Player {
    First,
    Second,
}

/// The points of both players.
#[derive(Debug, Clone, Copy)]
pub struct Scores {
    first: u16,
    second: u16,
}

impl Scores {
    /// The points of `player`.
    pub closed spec fn of(self, player: Player) -> u16 {
        match player {
            Player::First => self.first,
            Player::Second => self.second,
        }
    }
}

impl Default for Scores {
    fn default() -> (scores: Self)
        ensures
            scores.of(Player::First) == 0,
            scores.of(Player::Second) == 0,
    {
        Scores { first: 0, second: 0 }
    }
}

impl Index<Player> for Scores {
    type Output = u16;

    fn index(&self, index: Player) -> (points: &u16)
        ensures
            *points == self.of(index),
    {
        match index {
            Player::First => &self.first,
            Player::Second => &self.second,
        }
    }
}

impl vstd::std_specs::core::IndexSpecImpl<Player> for Scores {
    open spec fn index_req(&self, index: &Player) -> bool {
        true
    }
}

/// The tiles on the table, the player to move and the points so far.
pub struct Board {
    blanks: Bitboard,
    letters: Vec<Bitboard>,
    current_turn: Player,
    scores: Scores,
}

impl Board {
    /// The cells that hold a blank tile.
    pub closed spec fn blanks(&self) -> Set<(int, int)> {
        self.blanks@
    }

    /// For each letter, the cells that hold a tile of it.
    pub closed spec fn letters(&self) -> Seq<Set<(int, int)>> {
        Seq::new(self.letters@.len(), |i: int| self.letters@[i]@)
    }

    /// The player who moves next.
    pub closed spec fn current_turn(&self) -> Player {
        self.current_turn
    }

    /// The points so far.
    pub closed spec fn scores(&self) -> Scores {
        self.scores
    }

    /// Every bitboard of the board has clear padding.
    pub closed spec fn wf(&self) -> bool {
        &&& self.blanks.wf()
        &&& forall|i: int| 0 <= i < self.letters@.len() ==> (#[trigger] self.letters@[i]).wf()
    }

    /// A board without tiles for a game with `num_letters` distinct letters:
    /// the first player moves and nobody has points.
    pub fn new(num_letters: u8) -> (board: Self)
        ensures
            board.wf(),
            board.blanks() == empty_grid(),
            board.letters().len() == num_letters,
            forall|i: int| 0 <= i < num_letters ==> #[trigger] board.letters()[i] == empty_grid(),
            board.current_turn() == Player::First,
            board.scores().of(Player::First) == 0,
            board.scores().of(Player::Second) == 0,
    {
        let mut letters: Vec<Bitboard> = Vec::new();
        let mut i: u8 = 0;
        while i < num_letters
            invariant
                i <= num_letters,
                letters@.len() == i,
                forall|j: int| 0 <= j < i ==> (#[trigger] letters@[j]).wf(),
                forall|j: int| 0 <= j < i ==> (#[trigger] letters@[j])@ == empty_grid(),
            decreases num_letters - i,
        {
            letters.push(Bitboard::empty());
            i += 1;
        }
        Board {
            blanks: Bitboard::empty(),
            letters,
            current_turn: Player::First,
            scores: Scores::default(),
        }
    }
}

/// A row or a column of the board, counted from 1 to 15.
#[derive(Debug, Clone, Copy)]
pub struct Coordinate(u8);

impl View for Coordinate {
    type V = int;

    /// The number of the row or column, from 1.
    closed spec fn view(&self) -> int {
        self.0 as int
    }
}

impl Coordinate {
    #[verifier::type_invariant]
    spec fn in_range(self) -> bool {
        1 <= self.0 <= 15
    }

    /// The coordinate lies on the board. Every coordinate that the
    /// constructors hand out does.
    pub open spec fn wf(self) -> bool {
        1 <= self@ <= 15
    }

    /// The coordinate `coord`, if it is one of 1 to 15.
    pub fn new(coord: u8) -> (made: Option<Self>)
        ensures
            made is Some <==> 1 <= coord <= 15,
            made matches Some(c) ==> c@ == coord && c.wf(),
    {
        if coord != 0 && coord <= 15 {
            Some(Coordinate(coord))
        } else {
            None
        }
    }

    /// The zero-based index of the coordinate, from 0 to 14.
    pub fn as_idx(self) -> (idx: usize)
        ensures
            idx == self@ - 1,
            0 <= idx < 15,
            self.wf(),
    {
        proof {
            use_type_invariant(&self);
        }
        self.0 as usize - 1
    }

    /// The coordinate with the zero-based index `idx`, if `idx` is one of 0 to 14.
    pub fn from_idx(idx: usize) -> (made: Option<Self>)
        ensures
            made is Some <==> idx <= 14,
            made matches Some(c) ==> c@ == idx + 1 && c.wf(),
    {
        if idx <= 14 {
            Some(Coordinate((idx + 1) as u8))
        } else {
            None
        }
    }
}

/// One cell of the board.
pub struct Location {
    row: Coordinate,
    column: Coordinate,
}

impl View for Location {
    type V = (int, int);

    /// The zero-based indices of the row and of the column.
    closed spec fn view(&self) -> (int, int) {
        (self.row@ - 1, self.column@ - 1)
    }
}

impl Location {
    /// The cell in row `row` and column `column`.
    pub fn new(row: Coordinate, column: Coordinate) -> (loc: Self)
        ensures
            loc@ == (row@ - 1, column@ - 1),
    {
        Location { row, column }
    }

    /// The row of the cell.
    pub fn row(&self) -> (row: Coordinate)
        ensures
            row@ - 1 == self@.0,
    {
        self.row
    }

    /// The column of the cell.
    pub fn column(&self) -> (column: Coordinate)
        ensures
            column@ - 1 == self@.1,
    {
        self.column
    }
}

/// The direction in which a word is laid.
pub enum Direction {
    Horizontal,
    Vertical,
}

/// A placement of tiles: where it starts and in which direction it runs.
pub struct Move {
    location: Location,
    direction: Direction,
}

} // verus!
