//! The cells of the map and the colours things are painted in.
use vstd::prelude::*;

verus! {

/// One cell of the map.
#[derive(Clone, Copy, Debug, PartialEq, Eq, Structural)]
pub enum Tile {
    Empty,
    Wall,
}

/// The colours the viewer paints with.
#[derive(Clone, Copy, Debug, PartialEq, Eq, Structural)]
pub enum Paint {
    White,
    Black,
    Red,
    Green,
}

/// The colour a tile is painted in: black for an empty cell, red for a wall.
pub open spec fn tile_paint(t: Tile) -> Paint {
    match t {
        Tile::Empty => Paint::Black,
        Tile::Wall => Paint::Red,
    }
}

impl Default for Tile {
    fn default() -> (r: Tile)
        ensures
            r == Tile::Empty,
    {
        Tile::Empty
    }
}

impl Tile {
    /// The colour this tile is painted in.
    pub fn paint(&self) -> (r: Paint)
        ensures
            r == tile_paint(*self),
    {
        match self {
            Tile::Empty => Paint::Black,
            Tile::Wall => Paint::Red,
        }
    }
}

} // verus!
