use vstd::prelude::*;
use vstd::string::StringExecFns;

use crate::draw::{world_cmds, CameraKind, DrawCmd, TextLabel};
use crate::player::{default_player, follow, step, FrameInput, Player};
use crate::world::{built_from, grid_view, Level, Tile, World};

verus! {

/// Width of the off-screen render target, in pixels.
pub const TARGET_WIDTH: u32 = 1280;

/// Height of the off-screen render target, in pixels.
pub const TARGET_HEIGHT: u32 = 720;

/// Tile set image of the first level.
pub const FIRST_TILESET: &'static str = "assets/tilesets/grass_tiles.png";

/// Cell size of the first level's tile map, in pixels.
pub const FIRST_TILE_SIZE: u32 = 16;

/// The screen the game is on.
#[derive(Clone, Copy, Debug, PartialEq, Eq, Structural)]
pub enum GameState {
    Startup,
    Loading,
    TitleScreen,
    Gameplay,
    Menu,
    Cutscene,
    /// Only used in debug builds.
    Editor,
}

/// The game: its current screen, the world, and the size of the render
/// target that the world is drawn into.
#[derive(Debug)]
pub struct Game {
    pub target_resolution: (u32, u32),
    pub state: GameState,
    pub world: World,
}

/// A solid tile showing cell (`x`, `y`) of the tile set.
pub open spec fn solid_tile(x: u32, y: u32) -> Option<Tile> {
    Some(Tile { location: (x, y), collision: true })
}

/// The grid of the first level.
pub open spec fn first_grid() -> Seq<Seq<Option<Tile>>> {
    seq![
        seq![],
        seq![
            solid_tile(0, 0), solid_tile(1, 0), solid_tile(1, 0), solid_tile(2, 0),
            None, None, None, solid_tile(0, 0), solid_tile(2, 0),
        ],
        seq![
            solid_tile(0, 1), solid_tile(1, 1), solid_tile(1, 1), solid_tile(2, 1),
            None, None, None, solid_tile(0, 2), solid_tile(2, 2),
        ],
        seq![
            solid_tile(0, 2), solid_tile(1, 2), solid_tile(1, 2), solid_tile(2, 2),
            None, None, None,
        ],
    ]
}

/// `w` holds what the first level describes: a fresh player and one tile
/// map with the first level's tile set, cell size and grid.
pub open spec fn holds_first_level(w: World) -> bool {
    &&& w.player == Some(default_player())
    &&& w.tilemaps@.len() == 1
    &&& w.tilemaps@[0].tileset@ == FIRST_TILESET@
    &&& w.tilemaps@[0].tile_size == FIRST_TILE_SIZE
    &&& grid_view(w.tilemaps@[0].tiles@) == first_grid()
}

/// The state after one update tick in `s`, where `confirm` tells whether the
/// confirm input is held.
pub open spec fn next_state(s: GameState, confirm: bool) -> GameState {
    match s {
        GameState::Startup => GameState::TitleScreen,
        GameState::TitleScreen => if confirm { GameState::Loading } else { GameState::TitleScreen },
        GameState::Loading => GameState::Gameplay,
        _ => s,
    }
}

/// The commands that draw a game in state `s` with world `w`.
pub open spec fn game_cmds(s: GameState, w: World) -> Seq<DrawCmd> {
    match s {
        GameState::Startup => seq![
            DrawCmd::Clear { r: 0, g: 0, b: 0 },
            DrawCmd::Text { label: TextLabel::Startup, x: 0, y: 32, size: 32 },
        ],
        GameState::Loading => seq![
            DrawCmd::Clear { r: 0, g: 0, b: 0 },
            DrawCmd::Text { label: TextLabel::Loading, x: 0, y: 32, size: 32 },
        ],
        GameState::TitleScreen => seq![
            DrawCmd::SetCamera(CameraKind::Title),
            DrawCmd::Clear { r: 0, g: 0, b: 0 },
            DrawCmd::Text { label: TextLabel::Title, x: -575i32, y: -160i32, size: 256 },
            DrawCmd::Text { label: TextLabel::PressEnter, x: -275i32, y: 0, size: 64 },
        ],
        GameState::Gameplay => world_cmds(w) + seq![
            DrawCmd::SetCamera(CameraKind::Screen),
            DrawCmd::PresentTarget,
        ],
        _ => seq![],
    }
}

/// The first level: a fresh player and one tile map.
pub fn first_level() -> (r: Level)
    ensures
        r.player == Some(default_player()),
        r.tilemaps@.len() == 1,
        r.tilemaps@[0].0@ == FIRST_TILESET@,
        r.tilemaps@[0].1 == FIRST_TILE_SIZE,
        grid_view(r.tilemaps@[0].2@) == first_grid(),
{
    let t00 = Some(Tile { location: (0, 0), collision: true });
    let t10 = Some(Tile { location: (1, 0), collision: true });
    let t20 = Some(Tile { location: (2, 0), collision: true });
    let t01 = Some(Tile { location: (0, 1), collision: true });
    let t11 = Some(Tile { location: (1, 1), collision: true });
    let t21 = Some(Tile { location: (2, 1), collision: true });
    let t02 = Some(Tile { location: (0, 2), collision: true });
    let t12 = Some(Tile { location: (1, 2), collision: true });
    let t22 = Some(Tile { location: (2, 2), collision: true });
    let grid: Vec<Vec<Option<Tile>>> = vec![
        vec![],
        vec![t00, t10, t10, t20, None, None, None, t00, t20],
        vec![t01, t11, t11, t21, None, None, None, t02, t22],
        vec![t02, t12, t12, t22, None, None, None],
    ];
    assert(grid_view(grid@) =~= first_grid());
    let path = <String as StringExecFns>::from_str(FIRST_TILESET);
    Level { player: Some(Player::new()), tilemaps: vec![(path, FIRST_TILE_SIZE, grid)] }
}

impl Game {
    pub open spec fn wf(&self) -> bool {
        self.world.wf()
    }

    /// A game on the startup screen with an empty world.
    pub fn new() -> (r: Self)
        ensures
            r.state == GameState::Startup,
            r.target_resolution == (TARGET_WIDTH, TARGET_HEIGHT),
            r.world.player is None,
            r.world.tilemaps@.len() == 0,
            r.wf(),
    {
        Game { target_resolution: (TARGET_WIDTH, TARGET_HEIGHT), state: GameState::Startup, world: World::new() }
    }

    /// One update tick. Startup moves on to the title screen; the title
    /// screen moves on to loading while confirm is held; loading loads the
    /// first level into the world and moves on to gameplay; gameplay steps
    /// the world. The other states do nothing.
    pub fn update(&mut self, input: &FrameInput, dt_ms: u32)
        requires
            old(self).wf(),
        ensures
            final(self).wf(),
            final(self).state == next_state(old(self).state, input.confirm),
            final(self).target_resolution == old(self).target_resolution,
            old(self).state == GameState::Loading ==> holds_first_level(final(self).world)
                && final(self).world.camera == old(self).world.camera,
            old(self).state == GameState::Gameplay ==> {
                &&& final(self).world.tilemaps == old(self).world.tilemaps
                &&& match old(self).world.player {
                    Some(p) => final(self).world.player == Some(step(p, *input, dt_ms, old(self).world.tilemaps@))
                        && final(self).world.camera.target == follow(old(self).world.camera.target, p.position, dt_ms),
                    None => final(self).world.player is None && final(self).world.camera == old(self).world.camera,
                }
            },
            old(self).state != GameState::Loading && old(self).state != GameState::Gameplay
                ==> final(self).world == old(self).world,
    {
        match self.state {
            GameState::Startup => {
                self.state = GameState::TitleScreen;
            },
            GameState::Loading => {
                let level = first_level();
                let ghost srcs = level.tilemaps@;
                self.world.load_level(level);
                assert(built_from(self.world.tilemaps@[0], srcs[0]));
                self.state = GameState::Gameplay;
            },
            GameState::TitleScreen => {
                if input.confirm {
                    self.state = GameState::Loading;
                }
            },
            GameState::Gameplay => {
                self.world.update(input, dt_ms);
            },
            GameState::Menu => {},
            GameState::Cutscene => {},
            GameState::Editor => {},
        }
    }

    /// The commands that draw the current screen: see `game_cmds`.
    pub fn draw(&self) -> (r: Vec<DrawCmd>)
        ensures
            r@ == game_cmds(self.state, self.world),
    {
        let mut out: Vec<DrawCmd> = Vec::new();
        match self.state {
            GameState::Startup => {
                out.push(DrawCmd::Clear { r: 0, g: 0, b: 0 });
                out.push(DrawCmd::Text { label: TextLabel::Startup, x: 0, y: 32, size: 32 });
            },
            GameState::Loading => {
                out.push(DrawCmd::Clear { r: 0, g: 0, b: 0 });
                out.push(DrawCmd::Text { label: TextLabel::Loading, x: 0, y: 32, size: 32 });
            },
            GameState::TitleScreen => {
                out.push(DrawCmd::SetCamera(CameraKind::Title));
                out.push(DrawCmd::Clear { r: 0, g: 0, b: 0 });
                out.push(DrawCmd::Text { label: TextLabel::Title, x: -575, y: -160, size: 256 });
                out.push(DrawCmd::Text { label: TextLabel::PressEnter, x: -275, y: 0, size: 64 });
            },
            GameState::Gameplay => {
                out = self.world.draw();
                out.push(DrawCmd::SetCamera(CameraKind::Screen));
                out.push(DrawCmd::PresentTarget);
            },
            GameState::Menu => {},
            GameState::Cutscene => {},
            GameState::Editor => {},
        }
        assert(out@ =~= game_cmds(self.state, self.world));
        out
    }

    /// The game world.
    pub fn world(&self) -> (r: &World)
        ensures
            *r == self.world,
    {
        &self.world
    }
}

} // verus!
