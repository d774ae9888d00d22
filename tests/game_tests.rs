use highground::draw::WORLD_BACKGROUND;
use highground::game::{first_level, FIRST_TILESET, FIRST_TILE_SIZE};
use highground::geom::Vec2i;
use highground::{CameraKind, DrawCmd, FrameInput, Game, GameState, Player, TextLabel, Tile, TileMap, World};

fn idle() -> FrameInput {
    FrameInput { right: false, left: false, jump: false, confirm: false }
}

fn confirm() -> FrameInput {
    FrameInput { confirm: true, ..idle() }
}

#[test]
fn new_game_starts_at_startup() {
    let g = Game::new();
    assert_eq!(g.state, GameState::Startup);
    assert_eq!(g.target_resolution, (1280, 720));
    assert!(g.world().player.is_none());
    assert!(g.world().tilemaps.is_empty());
}

#[test]
fn startup_moves_to_title_screen() {
    let mut g = Game::new();
    g.update(&confirm(), 16);
    assert_eq!(g.state, GameState::TitleScreen);
    let mut h = Game::new();
    h.update(&idle(), 16);
    assert_eq!(h.state, GameState::TitleScreen);
}

#[test]
fn title_screen_waits_for_confirm() {
    let mut g = Game::new();
    g.update(&idle(), 16);
    let moving = FrameInput { right: true, left: true, jump: true, confirm: false };
    g.update(&moving, 16);
    g.update(&idle(), 16);
    assert_eq!(g.state, GameState::TitleScreen);
    g.update(&confirm(), 16);
    assert_eq!(g.state, GameState::Loading);
    assert!(g.world().tilemaps.is_empty());
}

#[test]
fn loading_populates_world_and_enters_gameplay() {
    let mut g = Game::new();
    g.update(&idle(), 16);
    g.update(&confirm(), 16);
    g.update(&idle(), 16);
    assert_eq!(g.state, GameState::Gameplay);
    let w = g.world();
    assert_eq!(w.player, Some(Player::default()));
    assert_eq!(w.tilemaps.len(), 1);
    assert_eq!(w.tilemaps[0].tileset, FIRST_TILESET);
    assert_eq!(w.tilemaps[0].tile_size, FIRST_TILE_SIZE);
    let rows: Vec<usize> = w.tilemaps[0].tiles.iter().map(|r| r.len()).collect();
    assert_eq!(rows, vec![0, 9, 9, 7]);
    assert_eq!(w.tilemaps[0].get((7, 2)), Some(Tile { location: (0, 2), collision: true }));
    assert_eq!(w.tilemaps[0].get((4, 1)), None);
}

#[test]
fn first_level_matches_loaded_world() {
    let level = first_level();
    assert_eq!(level.player, Some(Player::new()));
    assert_eq!(level.tilemaps.len(), 1);
    assert_eq!(level.tilemaps[0].0, "assets/tilesets/grass_tiles.png");
    assert_eq!(level.tilemaps[0].1, 16);
    assert_eq!(level.tilemaps[0].2[3][3], Some(Tile { location: (2, 2), collision: true }));
}

#[test]
fn gameplay_steps_the_player() {
    let mut g = Game::new();
    g.update(&idle(), 16);
    g.update(&confirm(), 16);
    g.update(&idle(), 16);
    g.update(&idle(), 10);
    let p = g.world().player.unwrap();
    // The box of a player at the origin reaches cell (1, 1), a solid tile:
    // the fall is undone and the player stops.
    assert_eq!(p.velocity, Vec2i { x: 0, y: 0 });
    assert_eq!(p.position, Vec2i { x: 0, y: 0 });
    // The camera still moved toward the player's centre.
    assert_eq!(g.world().camera.target, Vec2i { x: 240_000, y: 240_000 });
    assert_eq!(g.state, GameState::Gameplay);
}

#[test]
fn unused_states_do_nothing() {
    for s in [GameState::Menu, GameState::Cutscene, GameState::Editor] {
        let mut g = Game::new();
        g.state = s;
        g.update(&confirm(), 16);
        assert_eq!(g.state, s);
        assert!(g.draw().is_empty());
    }
}

#[test]
fn startup_and_title_screens_draw_text() {
    let g = Game::new();
    assert_eq!(
        g.draw(),
        vec![
            DrawCmd::Clear { r: 0, g: 0, b: 0 },
            DrawCmd::Text { label: TextLabel::Startup, x: 0, y: 32, size: 32 },
        ]
    );
    let mut t = Game::new();
    t.update(&idle(), 16);
    assert_eq!(
        t.draw(),
        vec![
            DrawCmd::SetCamera(CameraKind::Title),
            DrawCmd::Clear { r: 0, g: 0, b: 0 },
            DrawCmd::Text { label: TextLabel::Title, x: -575, y: -160, size: 256 },
            DrawCmd::Text { label: TextLabel::PressEnter, x: -275, y: 0, size: 64 },
        ]
    );
    t.update(&confirm(), 16);
    assert_eq!(t.draw()[1], DrawCmd::Text { label: TextLabel::Loading, x: 0, y: 32, size: 32 });
}

#[test]
fn world_draws_tiles_row_major_then_player() {
    let mut w = World::new();
    w.tilemaps.push(TileMap {
        tiles: vec![
            vec![None, Some(Tile { location: (3, 4), collision: false })],
            vec![Some(Tile { location: (1, 1), collision: true })],
        ],
        tile_size: 16,
        tileset: "a.png".to_string(),
    });
    w.tilemaps.push(TileMap {
        tiles: vec![vec![], vec![None, None, Some(Tile { location: (0, 0), collision: true })]],
        tile_size: 8,
        tileset: "b.png".to_string(),
    });
    let mut p = Player::new();
    p.position = Vec2i { x: 7, y: -9 };
    w.player = Some(p);
    assert_eq!(
        w.draw(),
        vec![
            DrawCmd::SetCamera(CameraKind::World),
            DrawCmd::Clear { r: WORLD_BACKGROUND, g: WORLD_BACKGROUND, b: WORLD_BACKGROUND },
            DrawCmd::Tile { map: 0, column: 1, row: 0, source: (3, 4) },
            DrawCmd::Tile { map: 0, column: 0, row: 1, source: (1, 1) },
            DrawCmd::Tile { map: 1, column: 2, row: 1, source: (0, 0) },
            DrawCmd::PlayerBox { x: 7, y: -9 },
        ]
    );
}

#[test]
fn gameplay_draw_is_repeatable_and_presents_target() {
    let mut g = Game::new();
    g.update(&idle(), 16);
    g.update(&confirm(), 16);
    g.update(&idle(), 16);
    let first = g.draw();
    let second = g.draw();
    assert_eq!(first, second);
    // Camera, background, 16 tiles, player, screen camera, present.
    assert_eq!(first.len(), 2 + 16 + 1 + 2);
    assert_eq!(first[first.len() - 1], DrawCmd::PresentTarget);
    assert_eq!(first[first.len() - 3], DrawCmd::PlayerBox { x: 0, y: 0 });
}
