//! The tile grid and the window of it that is shown.
use vstd::prelude::*;

use crate::config::{FRAME_HEIGHT, FRAME_WIDTH, MAP_HEIGHT, MAP_SIZE, MAP_WIDTH, TILE_SIZE};
use crate::geometry::{Point, Rect};
use crate::player::Player;
use crate::tile::{tile_paint, Tile};

verus! {

/// The grid of tiles, row by row, together with the player position taken
/// when the map was made. That position is a copy: it does not follow the
/// player afterwards, so the shown window stays where the player started.
pub struct TileMap {
    tiles: Vec<Tile>,
    player_pos: Point,
}

/// `|v|`.
pub open spec fn abs(v: int) -> int {
    if v < 0 {
        -v
    } else {
        v
    }
}

/// Top-left pixel corner of the tile at linear index `i`: column
/// `i % MAP_WIDTH` and row `i / MAP_WIDTH`, each times the tile size.
pub open spec fn map_position(i: int) -> Point {
    Point {
        x: (TILE_SIZE * (i % MAP_WIDTH as int)) as i64,
        y: (TILE_SIZE * (i / MAP_WIDTH as int)) as i64,
    }
}

/// The tile at linear index `i` is in the window around `anchor`: its
/// column and row, in tile units, are each less than half the frame's width
/// and height away from the anchor's.
pub open spec fn in_window(anchor: Point, i: int) -> bool {
    &&& 2 * abs(anchor.x - i % MAP_WIDTH as int) < FRAME_WIDTH
    &&& 2 * abs(anchor.y - i / MAP_WIDTH as int) < FRAME_HEIGHT
}

/// The tiles among the first `n` of `tiles` that lie in the window around
/// `anchor`, in grid order.
pub open spec fn frame_prefix(tiles: Seq<Tile>, anchor: Point, n: nat) -> Seq<Tile>
    decreases n,
{
    if n == 0 {
        seq![]
    } else {
        let rest = frame_prefix(tiles, anchor, (n - 1) as nat);
        if in_window(anchor, n - 1) {
            rest.push(tiles[n - 1])
        } else {
            rest
        }
    }
}

/// The tiles of `tiles` that lie in the window around `anchor`, in grid order.
pub open spec fn frame_of(tiles: Seq<Tile>, anchor: Point) -> Seq<Tile> {
    frame_prefix(tiles, anchor, tiles.len())
}

/// The squares that paint `frame`: the `i`-th tile of the frame goes at
/// `map_position(i)`, its place in the frame and not in the grid.
pub open spec fn frame_rects(frame: Seq<Tile>) -> Seq<Rect> {
    Seq::new(
        frame.len(),
        |i: int| Rect { pos: map_position(i), size: TILE_SIZE, paint: tile_paint(frame[i]) },
    )
}

/// A filtered prefix is no longer than the prefix.
proof fn lemma_frame_prefix_len(tiles: Seq<Tile>, anchor: Point, n: nat)
    ensures
        frame_prefix(tiles, anchor, n).len() <= n,
    decreases n,
{
    if n > 0 {
        lemma_frame_prefix_len(tiles, anchor, (n - 1) as nat);
    }
}

impl TileMap {
    #[verifier::type_invariant]
    spec fn well_formed(self) -> bool {
        self.tiles@.len() == MAP_SIZE
    }

    /// The tiles, row by row.
    pub closed spec fn tiles_seq(&self) -> Seq<Tile> {
        self.tiles@
    }

    /// The player position copied when the map was made.
    pub closed spec fn snapshot(&self) -> Point {
        self.player_pos
    }

    /// The tiles currently in view.
    pub open spec fn frame(&self) -> Seq<Tile> {
        frame_of(self.tiles_seq(), self.snapshot())
    }

    /// A map of `MAP_SIZE` empty tiles that copies the player's position.
    pub fn new(player: &Player) -> (r: TileMap)
        ensures
            r.tiles_seq() == Seq::new(MAP_SIZE as nat, |i: int| Tile::Empty),
            r.snapshot() == player.pos,
    {
        let tiles = vec![Tile::Empty; MAP_SIZE];
        proof {
            assert(tiles@ =~= Seq::new(MAP_SIZE as nat, |i: int| Tile::Empty));
        }
        TileMap { tiles, player_pos: player.pos }
    }

    /// Top-left pixel corner of the tile at linear index `pos`.
    pub fn get_map_position(pos: usize) -> (r: Point)
        requires
            pos < MAP_SIZE,
        ensures
            r == map_position(pos as int),
    {
        let width = MAP_WIDTH as usize;
        let col = (pos % width) as i64;
        let row = (pos / width) as i64;
        assert(row < MAP_HEIGHT);
        let size = TILE_SIZE as i64;
        Point { x: col * size, y: row * size }
    }

    /// Whether the tile at `pos` lies in the window around `anchor`, from its
    /// pixel position taken back to tile units.
    fn is_visible(anchor: Point, pos: usize) -> (r: bool)
        requires
            pos < MAP_SIZE,
        ensures
            r == in_window(anchor, pos as int),
    {
        let corner = Self::get_map_position(pos);
        let size = TILE_SIZE as i64;
        let col = corner.x / size;
        let row = corner.y / size;
        assert(col == pos as int % MAP_WIDTH as int);
        assert(row == pos as int / MAP_WIDTH as int);
        let dx: i128 = anchor.x as i128 - col as i128;
        let dy: i128 = anchor.y as i128 - row as i128;
        let adx: i128 = if dx < 0 { -dx } else { dx };
        let ady: i128 = if dy < 0 { -dy } else { dy };
        2 * adx < FRAME_WIDTH as i128 && 2 * ady < FRAME_HEIGHT as i128
    }

    /// The tiles in view, in grid order: those whose column and row are less
    /// than half the frame's width and height away from the copied player
    /// position. Each call computes the frame afresh.
    pub fn get_frame(&self) -> (r: Vec<Tile>)
        ensures
            r@ == self.frame(),
    {
        proof {
            use_type_invariant(self);
        }
        let mut out: Vec<Tile> = Vec::new();
        let mut i: usize = 0;
        while i < self.tiles.len()
            invariant
                i <= self.tiles@.len() == MAP_SIZE,
                out@ == frame_prefix(self.tiles@, self.player_pos, i as nat),
            decreases self.tiles@.len() - i,
        {
            if Self::is_visible(self.player_pos, i) {
                out.push(self.tiles[i]);
            }
            i = i + 1;
        }
        out
    }

    /// The squares to paint for the frame, in frame order. The `i`-th tile
    /// of the frame is placed at `map_position(i)`: by its place in the
    /// frame, not by its place in the grid.
    pub fn draw_rects(&self) -> (r: Vec<Rect>)
        ensures
            r@ == frame_rects(self.frame()),
    {
        proof {
            use_type_invariant(self);
            lemma_frame_prefix_len(self.tiles@, self.player_pos, self.tiles@.len());
        }
        let frame = self.get_frame();
        let mut out: Vec<Rect> = Vec::new();
        let mut i: usize = 0;
        while i < frame.len()
            invariant
                i <= frame@.len() <= MAP_SIZE,
                frame@ == self.frame(),
                out@ =~= frame_rects(frame@).take(i as int),
            decreases frame@.len() - i,
        {
            let rect = Rect {
                pos: Self::get_map_position(i),
                size: TILE_SIZE,
                paint: frame[i].paint(),
            };
            out.push(rect);
            i = i + 1;
        }
        proof {
            assert(frame_rects(frame@).take(frame@.len() as int) =~= frame_rects(frame@));
        }
        out
    }

    /// The tiles, row by row.
    pub fn tiles(&self) -> (r: &Vec<Tile>)
        ensures
            r@ == self.tiles_seq(),
            r@.len() == MAP_SIZE,
    {
        proof {
            use_type_invariant(self);
        }
        &self.tiles
    }

    /// The player position copied when the map was made.
    pub fn player_pos(&self) -> (r: Point)
        ensures
            r == self.snapshot(),
    {
        self.player_pos
    }
}

/// `map_position` undoes the row-by-row linearization of the grid: for
/// every index `i` in `[0, MAP_SIZE)`, the corner is
/// `(TILE_SIZE * (i % MAP_WIDTH), TILE_SIZE * (i / MAP_WIDTH))`, and taking
/// it back to tile units gives the column and row from which `i` is
/// recovered as `row * MAP_WIDTH + col`.
pub proof fn lemma_map_position_inverse(i: int)
    requires
        0 <= i < MAP_SIZE,
    ensures
        map_position(i).x == TILE_SIZE * (i % MAP_WIDTH as int),
        map_position(i).y == TILE_SIZE * (i / MAP_WIDTH as int),
        (map_position(i).y as int / TILE_SIZE as int) * MAP_WIDTH + map_position(i).x as int
            / TILE_SIZE as int == i,
{
    assert(i / 48 < 27);
}

/// The frame is a function of the tiles and the copied position alone: two
/// maps that agree on both, or one map asked twice, give the same frame.
pub proof fn lemma_frame_repeatable(a: &TileMap, b: &TileMap)
    requires
        a.tiles_seq() == b.tiles_seq(),
        a.snapshot() == b.snapshot(),
    ensures
        a.frame() == b.frame(),
{
}

} // verus!
