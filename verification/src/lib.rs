//! A 15x15 bit-packed board, the set algebra and geometry over it, and the
//! plain data of the game that is played on it.

use vstd::prelude::*;
use crate::board::{Board, Player};
use crate::grid::empty_grid;

pub mod bitboard;
pub mod board;
pub mod engine;
pub mod grid;
pub mod lanes;
pub mod laws;
pub mod render;
pub mod rows;
pub mod scalar;
pub mod wide;

verus! {

/// Why a tile map could not be made.
#[derive(Debug, Clone, Copy, PartialEq, Eq, Structural)]
pub enum TileMapError {
    /// More distinct tiles were given than an index of a tile can tell apart.
    TooManyTiles,
}

impl TileMapError {
    /// What went wrong, in words.
    pub fn message(&self) -> (text: &'static str)
        ensures
            text@ == "Max number of distinct tiles: 256"@,
    {
        "Max number of distinct tiles: 256"
    }
}

/// The distinct tiles of a game, each with the letters printed on it.
pub struct TileMap {
    letters: Vec<String>,
}

/// The place of a tile in a tile map.
pub struct TileMapIdx(u8);

impl View for TileMapIdx {
    type V = int;

    closed spec fn view(&self) -> int {
        self.0 as int
    }
}

impl View for TileMap {
    type V = Seq<Seq<char>>;

    /// The letters of every tile, in the order of the tiles.
    closed spec fn view(&self) -> Seq<Seq<char>> {
        self.letters.deep_view()
    }
}

/// Calls `to_string` of `std` on a `char`: the string that holds that one
/// character.
#[verifier::external_body]
fn char_string(c: char) -> (s: String)
    ensures
        s@ == seq![c],
{
    c.to_string()
}

impl TileMap {
    #[verifier::type_invariant]
    spec fn indexable(self) -> bool {
        self.letters@.len() <= 255
    }

    /// The tiles of the English game: one for each letter from `A` to `Z`.
    pub open spec fn english_letters() -> Seq<Seq<char>> {
        Seq::new(26, |i: int| seq![(65 + i) as char])
    }

    /// The tile map of `letters`. More than 255 tiles are refused.
    pub fn new(letters: Vec<String>) -> (made: Result<Self, TileMapError>)
        ensures
            made is Ok <==> letters@.len() <= 255,
            made matches Ok(map) ==> map@ == letters.deep_view(),
            made matches Err(e) ==> e == TileMapError::TooManyTiles,
    {
        if letters.len() > 255 {
            return Err(TileMapError::TooManyTiles);
        }
        Ok(TileMap { letters })
    }

    /// The letters of the tile at `idx`, if the map has such a tile.
    pub fn get(&self, idx: TileMapIdx) -> (found: Option<&String>)
        ensures
            found is Some <==> idx@ < self@.len(),
            found matches Some(s) ==> s@ == self@[idx@],
    {
        let i = idx.0 as usize;
        if i < self.letters.len() {
            Some(&self.letters[i])
        } else {
            None
        }
    }

    /// The place of the first tile whose letters are `needle`, if there is one.
    pub fn find(&self, needle: &str) -> (found: Option<TileMapIdx>)
        ensures
            found matches Some(idx) ==> 0 <= idx@ < self@.len() && self@[idx@] == needle@ && forall|
                j: int,
            |
                0 <= j < idx@ ==> self@[j] != needle@,
            found is None ==> forall|j: int| 0 <= j < self@.len() ==> self@[j] != needle@,
    {
        proof {
            use_type_invariant(self);
        }
        let wanted = needle.to_owned();
        let mut i: usize = 0;
        while i < self.letters.len()
            invariant
                i <= self.letters@.len() <= 255,
                wanted@ == needle@,
                forall|j: int| 0 <= j < i ==> self@[j] != needle@,
            decreases self.letters@.len() - i,
        {
            if self.letters[i] == wanted {
                return Some(TileMapIdx(i as u8));
            }
            i += 1;
        }
        None
    }

    /// The number of tiles.
    fn len(&self) -> (n: u8)
        ensures
            n == self@.len(),
    {
        proof {
            use_type_invariant(self);
        }
        self.letters.len() as u8
    }

    /// The tile map of the English game.
    pub fn english() -> (map: Self)
        ensures
            map@ == Self::english_letters(),
    {
        let mut letters: Vec<String> = Vec::new();
        let mut code: u8 = 65;
        while code <= 90
            invariant
                65 <= code <= 91,
                letters@.len() == code - 65,
                forall|j: int| 0 <= j < letters@.len() ==> (#[trigger] letters@[j])@ == seq![
                    (65 + j) as char,
                ],
            decreases 91 - code,
        {
            letters.push(char_string(code as char));
            code += 1;
        }
        assert(letters.deep_view() =~= Self::english_letters());
        Self::new(letters).unwrap()
    }
}

/// A game: the board and the tiles that are played on it.
pub struct Game {
    board: Board,
    tiles: TileMap,
}

impl Game {
    /// The board of the game.
    pub closed spec fn board(&self) -> Board {
        self.board
    }

    /// The tiles of the game.
    pub closed spec fn tiles(&self) -> TileMap {
        self.tiles
    }

    /// A game with `tiles` that nobody has played in yet: the board has one
    /// empty bitboard for each tile.
    pub fn new(tiles: TileMap) -> (game: Self)
        ensures
            game.tiles() == tiles,
            game.board().wf(),
            game.board().blanks() == empty_grid(),
            game.board().letters().len() == tiles@.len(),
            forall|i: int|
                0 <= i < tiles@.len() ==> #[trigger] game.board().letters()[i] == empty_grid(),
            game.board().current_turn() == Player::First,
            game.board().scores().of(Player::First) == 0,
            game.board().scores().of(Player::Second) == 0,
    {
        Game { board: Board::new(tiles.len()), tiles }
    }
}

} // verus!
