//! The player token and its movement on the arrow keys.
use vstd::prelude::*;

use crate::config::{MAP_HEIGHT, MAP_WIDTH, TILE_SIZE};
use crate::geometry::{Point, Rect};
use crate::tile::Paint;

verus! {

/// A key press as the player sees it: the four arrows, or anything else.
#[derive(Clone, Copy, Debug, PartialEq, Eq, Structural)]
pub enum Key {
    Down,
    Up,
    Right,
    Left,
    Other,
}

/// The player token; `pos` is in tile units.
#[derive(Clone, Copy, Debug, PartialEq, Eq, Structural)]
pub struct Player {
    pub pos: Point,
}

/// `p` lies on the map: `0 <= x <= MAP_WIDTH - 1` and `0 <= y <= MAP_HEIGHT - 1`.
pub open spec fn in_bounds(p: Point) -> bool {
    &&& 0 <= p.x < MAP_WIDTH
    &&& 0 <= p.y < MAP_HEIGHT
}

/// Where one key press takes a token at `p`. An arrow moves one tile in its
/// direction when the moved-along coordinate stays within `[0, size - 1]`;
/// otherwise, and for any other key, the token stays put.
pub open spec fn step(p: Point, k: Key) -> Point {
    match k {
        Key::Down => if p.y < MAP_HEIGHT - 1 {
            Point { x: p.x, y: (p.y + 1) as i64 }
        } else {
            p
        },
        Key::Up => if p.y > 0 {
            Point { x: p.x, y: (p.y - 1) as i64 }
        } else {
            p
        },
        Key::Right => if p.x < MAP_WIDTH - 1 {
            Point { x: (p.x + 1) as i64, y: p.y }
        } else {
            p
        },
        Key::Left => if p.x > 0 {
            Point { x: (p.x - 1) as i64, y: p.y }
        } else {
            p
        },
        Key::Other => p,
    }
}

/// Where a sequence of key presses, taken in order, takes a token at `p`.
pub open spec fn apply_moves(p: Point, keys: Seq<Key>) -> Point
    decreases keys.len(),
{
    if keys.len() == 0 {
        p
    } else {
        apply_moves(step(p, keys[0]), keys.drop_first())
    }
}

/// The square the token at tile `p` is painted as: green, one tile in size,
/// at `p` scaled to pixels.
pub open spec fn token_rect(p: Point) -> Rect {
    Rect {
        pos: Point { x: (p.x * TILE_SIZE) as i64, y: (p.y * TILE_SIZE) as i64 },
        size: TILE_SIZE,
        paint: Paint::Green,
    }
}

/// `p` scaled to pixels fits in an `i64`.
pub open spec fn pixels_fit(p: Point) -> bool {
    &&& i64::MIN <= p.x * TILE_SIZE <= i64::MAX
    &&& i64::MIN <= p.y * TILE_SIZE <= i64::MAX
}

impl Default for Player {
    fn default() -> (r: Player)
        ensures
            r.pos == (Point { x: 0, y: 0 }),
    {
        Player { pos: Point { x: 0, y: 0 } }
    }
}

impl Player {
    /// A token at tile `pos`.
    pub fn new(pos: Point) -> (r: Player)
        ensures
            r.pos == pos,
    {
        Player { pos }
    }

    /// Applies one key press; a press that would leave the map, or a key
    /// other than an arrow, changes nothing.
    pub fn make_move(&mut self, input: Key)
        ensures
            final(self).pos == step(old(self).pos, input),
            in_bounds(old(self).pos) ==> in_bounds(final(self).pos),
    {
        proof {
            lemma_step_in_bounds(self.pos, input);
        }
        match input {
            Key::Down => {
                if self.pos.y < MAP_HEIGHT as i64 - 1 {
                    self.pos.y = self.pos.y + 1;
                }
            },
            Key::Up => {
                if self.pos.y > 0 {
                    self.pos.y = self.pos.y - 1;
                }
            },
            Key::Right => {
                if self.pos.x < MAP_WIDTH as i64 - 1 {
                    self.pos.x = self.pos.x + 1;
                }
            },
            Key::Left => {
                if self.pos.x > 0 {
                    self.pos.x = self.pos.x - 1;
                }
            },
            Key::Other => {},
        }
    }

    /// The square to paint for this token.
    pub fn draw_rect(&self) -> (r: Rect)
        requires
            pixels_fit(self.pos),
        ensures
            r == token_rect(self.pos),
    {
        let size = TILE_SIZE as i64;
        Rect {
            pos: Point { x: self.pos.x * size, y: self.pos.y * size },
            size: TILE_SIZE,
            paint: Paint::Green,
        }
    }
}

/// One key press keeps a token that is on the map on the map.
pub proof fn lemma_step_in_bounds(p: Point, k: Key)
    ensures
        in_bounds(p) ==> in_bounds(step(p, k)),
{
}

/// A token that starts on the map stays on the map, whatever keys are
/// pressed: `0 <= x <= MAP_WIDTH - 1` and `0 <= y <= MAP_HEIGHT - 1` throughout.
pub proof fn lemma_moves_stay_in_bounds(p: Point, keys: Seq<Key>)
    requires
        in_bounds(p),
    ensures
        in_bounds(apply_moves(p, keys)),
    decreases keys.len(),
{
    if keys.len() > 0 {
        lemma_step_in_bounds(p, keys[0]);
        lemma_moves_stay_in_bounds(step(p, keys[0]), keys.drop_first());
    }
}

/// At the edge of the map, an arrow that would take the token to -1 or to
/// the map's size along its axis leaves the token where it is.
pub proof fn lemma_edge_move_is_noop(p: Point, k: Key)
    requires
        in_bounds(p),
        (k == Key::Up && p.y == 0) || (k == Key::Down && p.y == MAP_HEIGHT - 1) || (k
            == Key::Left && p.x == 0) || (k == Key::Right && p.x == MAP_WIDTH - 1),
    ensures
        step(p, k) == p,
{
}

} // verus!
