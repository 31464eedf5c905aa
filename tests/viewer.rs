use tilemap::{
    Key, Paint, Player, Point, Rect, Tile, TileMap, FRAME_HEIGHT, FRAME_WIDTH, MAP_HEIGHT,
    MAP_SIZE, MAP_WIDTH, TILE_SIZE,
};

fn frame_len_at(x: i64, y: i64) -> usize {
    TileMap::new(&Player::new(Point::new(x, y))).get_frame().len()
}

#[test]
fn dimensions_are_three_frames() {
    assert_eq!(FRAME_WIDTH, 16);
    assert_eq!(FRAME_HEIGHT, 9);
    assert_eq!(MAP_WIDTH, 48);
    assert_eq!(MAP_HEIGHT, 27);
    assert_eq!(MAP_SIZE, 1296);
    assert_eq!(TILE_SIZE, 50);
}

#[test]
fn tile_defaults_to_empty_and_paints_by_kind() {
    assert_eq!(Tile::default(), Tile::Empty);
    assert_eq!(Tile::Empty.paint(), Paint::Black);
    assert_eq!(Tile::Wall.paint(), Paint::Red);
}

#[test]
fn player_starts_at_origin() {
    assert_eq!(Player::default().pos, Point::new(0, 0));
}

#[test]
fn arrows_move_one_tile() {
    let mut p = Player::new(Point::new(10, 10));
    p.make_move(Key::Down);
    assert_eq!(p.pos, Point::new(10, 11));
    p.make_move(Key::Up);
    p.make_move(Key::Up);
    assert_eq!(p.pos, Point::new(10, 9));
    p.make_move(Key::Right);
    assert_eq!(p.pos, Point::new(11, 9));
    p.make_move(Key::Left);
    p.make_move(Key::Left);
    assert_eq!(p.pos, Point::new(9, 9));
}

#[test]
fn moves_stay_within_the_map() {
    let mut p = Player::default();
    for _ in 0..100 {
        p.make_move(Key::Left);
        p.make_move(Key::Up);
        assert!(p.pos.x >= 0 && p.pos.y >= 0);
    }
    assert_eq!(p.pos, Point::new(0, 0));
    for _ in 0..100 {
        p.make_move(Key::Right);
        p.make_move(Key::Down);
        assert!(p.pos.x <= MAP_WIDTH as i64 - 1 && p.pos.y <= MAP_HEIGHT as i64 - 1);
    }
    assert_eq!(p.pos, Point::new(47, 26));
}

#[test]
fn edge_moves_are_no_ops() {
    let mut p = Player::default();
    p.make_move(Key::Left);
    assert_eq!(p.pos, Point::new(0, 0));
    p.make_move(Key::Up);
    assert_eq!(p.pos, Point::new(0, 0));
    let mut q = Player::new(Point::new(47, 26));
    q.make_move(Key::Right);
    assert_eq!(q.pos, Point::new(47, 26));
    q.make_move(Key::Down);
    assert_eq!(q.pos, Point::new(47, 26));
}

#[test]
fn unrecognized_key_changes_nothing() {
    let mut p = Player::new(Point::new(5, 7));
    p.make_move(Key::Other);
    assert_eq!(p.pos, Point::new(5, 7));
    let mut q = Player::default();
    q.make_move(Key::Other);
    assert_eq!(q.pos, Point::new(0, 0));
}

#[test]
fn map_position_scales_column_and_row() {
    assert_eq!(TileMap::get_map_position(0), Point::new(0, 0));
    assert_eq!(TileMap::get_map_position(1), Point::new(50, 0));
    assert_eq!(TileMap::get_map_position(47), Point::new(2350, 0));
    assert_eq!(TileMap::get_map_position(48), Point::new(0, 50));
    assert_eq!(TileMap::get_map_position(49), Point::new(50, 50));
    assert_eq!(TileMap::get_map_position(1295), Point::new(2350, 1300));
    for i in 0..MAP_SIZE {
        let p = TileMap::get_map_position(i);
        assert_eq!(p, Point::new(50 * (i % 48) as i64, 50 * (i / 48) as i64));
    }
}

#[test]
fn new_map_is_all_empty_and_copies_position() {
    let player = Player::new(Point::new(3, 4));
    let map = TileMap::new(&player);
    assert_eq!(map.tiles().len(), MAP_SIZE);
    assert!(map.tiles().iter().all(|t| *t == Tile::Empty));
    assert_eq!(map.player_pos(), Point::new(3, 4));
}

#[test]
fn fresh_frame_is_the_window_all_empty_painted_black() {
    let map = TileMap::new(&Player::default());
    let frame = map.get_frame();
    // Columns 0..=7 (2 * col < 16) and rows 0..=4 (2 * row < 9).
    assert_eq!(frame.len(), 8 * 5);
    assert!(frame.iter().all(|t| *t == Tile::Empty));
    let rects = map.draw_rects();
    assert_eq!(rects.len(), 8 * 5);
    assert!(rects.iter().all(|r| r.paint == Paint::Black && r.size == 50));
}

#[test]
fn frame_around_an_inner_position() {
    // Columns 23..=37 and rows 16..=24: a full frame, less one column.
    assert_eq!(frame_len_at(30, 20), 15 * 9);
    // In the far corner: columns 40..=47 and rows 22..=26.
    assert_eq!(frame_len_at(47, 26), 8 * 5);
    assert_eq!(frame_len_at(1000, 1000), 0);
    assert_eq!(frame_len_at(-1000, 0), 0);
}

#[test]
fn get_frame_twice_gives_the_same_tiles() {
    let map = TileMap::new(&Player::new(Point::new(12, 6)));
    let a = map.get_frame();
    let b = map.get_frame();
    assert_eq!(a, b);
}

// The map keeps the position it was made with: the view does not follow the
// player. This is the viewer's documented behaviour and is kept on purpose.
#[test]
fn moving_the_player_does_not_move_the_frame() {
    let mut player = Player::default();
    let map = TileMap::new(&player);
    assert_eq!(map.player_pos(), Point::new(0, 0));
    let before = map.get_frame();
    for _ in 0..5 {
        player.make_move(Key::Right);
    }
    assert_eq!(player.pos, Point::new(5, 0));
    assert_eq!(map.player_pos(), Point::new(0, 0));
    assert_eq!(map.get_frame(), before);
    assert_eq!(map.get_frame().len(), 8 * 5);
}

// Frame tiles are placed by their place in the frame, not in the grid: this
// is the viewer's documented behaviour and is kept on purpose.
#[test]
fn draw_rects_place_tiles_by_frame_index() {
    let map = TileMap::new(&Player::default());
    let rects = map.draw_rects();
    assert_eq!(rects[0].pos, Point::new(0, 0));
    assert_eq!(rects[7].pos, Point::new(350, 0));
    // The 9th tile of the frame is grid tile 48 (row 1, column 0), yet it
    // goes where grid tile 8 would.
    assert_eq!(rects[8].pos, Point::new(400, 0));
    assert_eq!(rects[39].pos, Point::new(1950, 0));
    for (i, r) in rects.iter().enumerate() {
        assert_eq!(r.pos, TileMap::get_map_position(i));
    }
}

#[test]
fn player_rect_is_green_at_scaled_position() {
    let p = Player::new(Point::new(3, 2));
    assert_eq!(
        p.draw_rect(),
        Rect { pos: Point::new(150, 100), size: 50, paint: Paint::Green }
    );
    assert_eq!(Player::default().draw_rect().pos, Point::new(0, 0));
}
