//! A tile map viewer: a fixed grid of tiles, the window of it shown around
//! a player token, and the token's bounded movement on arrow keys.
//!
//! Everything here is pure computation. Drawing, input polling and the
//! window live outside the library, which hands them plain rectangles.
pub mod config;
pub mod geometry;
pub mod map;
pub mod player;
pub mod tile;

pub use config::{
    FRAME_HEIGHT, FRAME_WIDTH, MAP_HEIGHT, MAP_SIZE, MAP_WIDTH, TILE_SIZE, WINDOW_FACTOR,
};
pub use geometry::{Point, Rect};
pub use map::TileMap;
pub use player::{Key, Player};
pub use tile::{Paint, Tile};
