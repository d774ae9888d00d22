use highground::geom::{clamp_i64, floor_div, scale_toward_zero, Vec2i, UNITS_PER_PIXEL};
use highground::world::PLAYER_SIZE;
use highground::{Camera, Level, Player, Tile, TileMap, World};

fn tile(x: u32, y: u32, collision: bool) -> Option<Tile> {
    Some(Tile { location: (x, y), collision })
}

fn ragged_map() -> TileMap {
    TileMap {
        tiles: vec![
            vec![tile(0, 0, true), None, tile(2, 0, false)],
            vec![],
            vec![tile(1, 1, true)],
        ],
        tile_size: 16,
        tileset: "tiles.png".to_string(),
    }
}

#[test]
fn get_negative_coordinates_are_absent() {
    let m = ragged_map();
    assert_eq!(m.get((-1, 0)), None);
    assert_eq!(m.get((0, -1)), None);
    assert_eq!(m.get((i32::MIN, i32::MIN)), None);
}

#[test]
fn get_out_of_range_is_absent() {
    let m = ragged_map();
    assert_eq!(m.get((0, 3)), None);
    assert_eq!(m.get((3, 0)), None);
    // The second row is empty, the third shorter than the first.
    assert_eq!(m.get((0, 1)), None);
    assert_eq!(m.get((1, 2)), None);
    assert_eq!(m.get((i32::MAX, 0)), None);
}

#[test]
fn get_returns_stored_tile() {
    let m = ragged_map();
    assert_eq!(m.get((0, 0)), tile(0, 0, true));
    assert_eq!(m.get((1, 0)), None);
    assert_eq!(m.get((2, 0)), tile(2, 0, false));
    assert_eq!(m.get((0, 2)), tile(1, 1, true));
}

#[test]
fn floor_div_rounds_down() {
    assert_eq!(floor_div(7, 2), 3);
    assert_eq!(floor_div(-7, 2), -4);
    assert_eq!(floor_div(-8, 2), -4);
    assert_eq!(floor_div(-1, 16_000_000), -1);
    assert_eq!(floor_div(0, 5), 0);
}

#[test]
fn scale_toward_zero_truncates() {
    assert_eq!(scale_toward_zero(1000, 950, 1000), 950);
    assert_eq!(scale_toward_zero(-1001, 500, 1000), -500);
    assert_eq!(scale_toward_zero(1001, 500, 1000), 500);
    assert_eq!(scale_toward_zero(-5, 0, 1000), 0);
}

#[test]
fn clamp_limits_both_sides() {
    assert_eq!(clamp_i64(12, 10), 10);
    assert_eq!(clamp_i64(-12, 10), -10);
    assert_eq!(clamp_i64(3, 10), 3);
}

#[test]
fn collides_at_samples_both_corners() {
    let m = ragged_map();
    // Top-left corner in cell (0, 0), which holds a colliding tile.
    assert!(m.collides_at(Vec2i { x: 0, y: 0 }));
    // Top-left corner in cell (1, 0) (empty), bottom-right corner in cell
    // (2, 1) (outside the empty second row).
    assert!(!m.collides_at(Vec2i { x: 16 * UNITS_PER_PIXEL, y: 0 }));
    // Bottom-right corner in cell (0, 2), which holds a colliding tile.
    assert!(m.collides_at(Vec2i { x: -PLAYER_SIZE, y: 32 * UNITS_PER_PIXEL - PLAYER_SIZE }));
    // Negative positions fall in negative cells: nothing there.
    assert!(!m.collides_at(Vec2i { x: -40 * UNITS_PER_PIXEL, y: -40 * UNITS_PER_PIXEL }));
}

#[test]
fn tile_size_zero_never_collides() {
    let mut m = ragged_map();
    m.tile_size = 0;
    assert!(!m.collides_at(Vec2i { x: 0, y: 0 }));
}

#[test]
fn load_level_with_no_tilemaps_clears_the_list() {
    let mut w = World::new();
    w.load_level(Level {
        player: None,
        tilemaps: vec![("a.png".to_string(), 16, vec![vec![tile(0, 0, true)]])],
    });
    assert_eq!(w.tilemaps.len(), 1);
    w.load_level(Level { player: None, tilemaps: vec![] });
    assert_eq!(w.tilemaps.len(), 0);
    assert!(w.player.is_none());
}

#[test]
fn load_level_replaces_maps_in_order_and_keeps_player_when_absent() {
    let mut w = World::new();
    let mut p = Player::new();
    p.position = Vec2i { x: 5, y: 6 };
    w.load_level(Level { player: Some(p), tilemaps: vec![("old.png".to_string(), 8, vec![])] });
    w.load_level(Level {
        player: None,
        tilemaps: vec![
            ("a.png".to_string(), 16, vec![vec![tile(1, 2, true)]]),
            ("b.png".to_string(), 32, vec![vec![], vec![None]]),
        ],
    });
    assert_eq!(w.player, Some(p));
    assert_eq!(w.tilemaps.len(), 2);
    assert_eq!(w.tilemaps[0].tileset, "a.png");
    assert_eq!(w.tilemaps[0].tile_size, 16);
    assert_eq!(w.tilemaps[0].tiles, vec![vec![tile(1, 2, true)]]);
    assert_eq!(w.tilemaps[1].tileset, "b.png");
    assert_eq!(w.tilemaps[1].tile_size, 32);
    assert_eq!(w.tilemaps[1].tiles, vec![vec![], vec![None]]);
}

#[test]
fn world_update_without_player_changes_nothing() {
    let mut w = World::new();
    w.camera = Camera { target: Vec2i { x: 3, y: 4 } };
    w.update(&Default::default(), 16);
    assert!(w.player.is_none());
    assert_eq!(w.camera.target, Vec2i { x: 3, y: 4 });
}
