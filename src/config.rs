//! Fixed dimensions of the window, the tiles and the map.
use vstd::prelude::*;

verus! {

/// Pixels per window unit: the window is 16 by 9 of these.
pub const WINDOW_FACTOR: u64 = 100;

/// Side of one tile, in pixels.
pub const TILE_SIZE: u64 = 50;

/// Width of one screenful of the map, in tiles.
pub const FRAME_WIDTH: u64 = 16;

/// Height of one screenful of the map, in tiles.
pub const FRAME_HEIGHT: u64 = 9;

/// Width of the map, in tiles: three screenfuls.
pub const MAP_WIDTH: u64 = 48;

/// Height of the map, in tiles: three screenfuls.
pub const MAP_HEIGHT: u64 = 27;

/// Number of tiles in the map.
pub const MAP_SIZE: usize = 1296;

/// The map is three frames wide and three frames high.
pub proof fn lemma_map_dimensions()
    ensures
        MAP_WIDTH == 3 * FRAME_WIDTH,
        MAP_HEIGHT == 3 * FRAME_HEIGHT,
        MAP_SIZE == MAP_WIDTH * MAP_HEIGHT,
{
}

} // verus!
