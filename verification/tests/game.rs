use scrubble::board::{Board, Coordinate, Location, Player, Scores};
use scrubble::{Game, TileMap, TileMapError};

#[test]
fn coordinate_accepts_one_to_fifteen() {
    assert!(Coordinate::new(0).is_none());
    assert!(Coordinate::new(16).is_none());
    assert!(Coordinate::new(255).is_none());
    for coord in 1..=15u8 {
        let c = Coordinate::new(coord).unwrap();
        assert_eq!(c.as_idx(), coord as usize - 1);
    }
}

#[test]
fn coordinate_from_idx_is_the_inverse_of_as_idx() {
    for idx in 0..15usize {
        assert_eq!(Coordinate::from_idx(idx).unwrap().as_idx(), idx);
    }
    assert!(Coordinate::from_idx(15).is_none());
    assert!(Coordinate::from_idx(16).is_none());
    assert!(Coordinate::from_idx(usize::MAX).is_none());
}

#[test]
fn location_keeps_row_and_column() {
    let l = Location::new(Coordinate::new(3).unwrap(), Coordinate::new(12).unwrap());
    assert_eq!(l.row().as_idx(), 2);
    assert_eq!(l.column().as_idx(), 11);
}

#[test]
fn scores_start_at_zero() {
    let scores = Scores::default();
    assert_eq!(scores[Player::First], 0);
    assert_eq!(scores[Player::Second], 0);
}

#[test]
fn tile_map_refuses_more_than_255_tiles() {
    let letters = |n: usize| (0..n).map(|i| format!("t{i}")).collect::<Vec<String>>();
    assert!(TileMap::new(letters(0)).is_ok());
    assert!(TileMap::new(letters(255)).is_ok());
    match TileMap::new(letters(256)) {
        Err(e) => {
            assert_eq!(e, TileMapError::TooManyTiles);
            assert_eq!(e.message(), "Max number of distinct tiles: 256");
        }
        Ok(_) => panic!("256 tiles were accepted"),
    }
    assert!(TileMap::new(letters(1000)).is_err());
}

#[test]
fn tile_map_finds_the_first_match() {
    let letters: Vec<String> = ["A", "CH", "B", "CH", ""].iter().map(|s| s.to_string()).collect();
    let map = TileMap::new(letters).unwrap();
    let idx = map.find("CH").unwrap();
    assert_eq!(map.get(idx).unwrap(), "CH");
    assert!(map.find("C").is_none());
    assert!(map.find("a").is_none());
    let first = map.find("A").unwrap();
    assert_eq!(map.get(first).unwrap(), "A");
    let last = map.find("").unwrap();
    assert_eq!(map.get(last).unwrap(), "");
    let other = TileMap::new(vec!["A".to_string(), "CH".to_string()]).unwrap();
    assert_eq!(other.get(map.find("CH").unwrap()).unwrap(), "CH");
    let b = map.find("B").unwrap();
    assert!(other.get(b).is_none());
}

#[test]
fn english_has_the_letters_a_to_z() {
    let map = TileMap::english();
    for c in 'A'..='Z' {
        let idx = map.find(&c.to_string()).unwrap();
        assert_eq!(map.get(idx).unwrap(), &c.to_string());
    }
    assert!(map.find("a").is_none());
    assert!(map.find("AB").is_none());
    let small = TileMap::new(vec!["Z".to_string()]).unwrap();
    let z = map.find("Z").unwrap();
    assert!(small.get(z).is_none());
    let a = map.find("A").unwrap();
    assert_eq!(small.get(a).unwrap(), "Z");
}

#[test]
fn a_game_can_be_set_up() {
    let _board = Board::new(0);
    let _board = Board::new(255);
    let _game = Game::new(TileMap::english());
    let _game = Game::new(TileMap::new(Vec::new()).unwrap());
}
