use vstd::prelude::*;

use crate::geom::{floor_div, Vec2i, COORD_LIMIT, UNITS_PER_PIXEL};
use crate::player::{follow, step, FrameInput, Player};

verus! {

/// A single grid cell: which cell of the tile set image it shows and
/// whether it blocks the player.
#[derive(Clone, Copy, Debug, PartialEq, Eq)]
pub struct Tile {
    pub location: (u32, u32),
    pub collision: bool,
}

/// A grid of optional tiles sharing one tile set image and one cell size.
/// Rows are stored top to bottom and may differ in length.
#[derive(Clone, Debug)]
pub struct TileMap {
    pub tiles: Vec<Vec<Option<Tile>>>,
    /// Edge length of a cell, in pixels. A map with size zero has no cells
    /// that the player can touch.
    pub tile_size: u32,
    /// Path of the tile set image; the renderer keeps the loaded texture.
    pub tileset: String,
}

/// The tile stored at column `x` of row `y`, or `None` when that cell lies
/// outside the grid.
pub open spec fn tile_at(tiles: Seq<Vec<Option<Tile>>>, x: int, y: int) -> Option<Tile> {
    if 0 <= y < tiles.len() && 0 <= x < tiles[y]@.len() {
        tiles[y]@[x]
    } else {
        None
    }
}

impl TileMap {
    pub open spec fn tile_at(&self, x: int, y: int) -> Option<Tile> {
        tile_at(self.tiles@, x, y)
    }

    /// The tile at grid cell `pos` = (column, row); `None` for an empty cell
    /// and for every coordinate outside the grid, negative ones included.
    pub fn get(&self, pos: (i32, i32)) -> (r: Option<Tile>)
        ensures
            r == self.tile_at(pos.0 as int, pos.1 as int),
            (pos.0 < 0 || pos.1 < 0 || pos.1 >= self.tiles@.len()
                || pos.0 >= self.tiles@[pos.1 as int]@.len()) ==> r is None,
    {
        if pos.0 < 0 || pos.1 < 0 {
            return None;
        }
        let y = pos.1 as usize;
        let x = pos.0 as usize;
        if y >= self.tiles.len() {
            return None;
        }
        let row = &self.tiles[y];
        if x >= row.len() {
            return None;
        }
        row[x]
    }
}


/// Edge length of the player's square box, in sub-pixel units (16 pixels).
pub const PLAYER_SIZE: i64 = 16_000_000;

/// The world camera: the point it is centred on.
#[derive(Clone, Copy, Debug, PartialEq, Eq)]
pub struct Camera {
    pub target: Vec2i,
}

impl Camera {
    pub open spec fn wf(&self) -> bool {
        in_bounds(self.target)
    }
}

/// A tile that blocks the player.
pub open spec fn solid(t: Option<Tile>) -> bool {
    match t {
        Some(tile) => tile.collision,
        None => false,
    }
}

/// Both coordinates within `COORD_LIMIT`.
pub open spec fn in_bounds(p: Vec2i) -> bool {
    -COORD_LIMIT <= p.x <= COORD_LIMIT && -COORD_LIMIT <= p.y <= COORD_LIMIT
}

/// Edge length of a cell in sub-pixel units.
pub open spec fn cell_units(m: TileMap) -> int {
    m.tile_size as int * UNITS_PER_PIXEL as int
}

/// The grid cell holding the point at sub-pixel coordinate `v`.
pub open spec fn cell_of(m: TileMap, v: int) -> int {
    v / cell_units(m)
}

/// Whether a player box at `p` (its top-left corner) touches a solid tile of
/// `m`. Two cells are sampled: the one under the top-left corner and the one
/// under the corner `PLAYER_SIZE` further along each axis.
pub open spec fn collides(m: TileMap, p: Vec2i) -> bool {
    m.tile_size > 0 && (solid(m.tile_at(cell_of(m, p.x as int), cell_of(m, p.y as int)))
        || solid(m.tile_at(cell_of(m, p.x + PLAYER_SIZE), cell_of(m, p.y + PLAYER_SIZE))))
}

/// Whether a player box at `p` touches a solid tile of any map of `maps`.
pub open spec fn any_collides(maps: Seq<TileMap>, p: Vec2i) -> bool {
    exists|i: int| 0 <= i < maps.len() && #[trigger] collides(maps[i], p)
}

/// The grid cell of a sub-pixel coordinate, for a cell size of at least one
/// pixel; it always fits an `i32`.
fn cell_index(v: i64, size: i64) -> (r: i32)
    requires
        -COORD_LIMIT <= v <= COORD_LIMIT + PLAYER_SIZE,
        size >= UNITS_PER_PIXEL,
    ensures
        r as int == v as int / size as int,
{
    let q = floor_div(v, size);
    proof {
        let qi: int = q as int;
        vstd::arithmetic::div_mod::lemma_fundamental_div_mod(v as int, size as int);
        let rm: int = (v as int) % (size as int);
        assert(0 <= rm < size);
        assert(v == size * qi + rm);
        assert(-4_194_304 <= qi <= 4_194_304) by (nonlinear_arith)
            requires
                v == size * qi + rm,
                0 <= rm < size,
                size >= 1_000_000,
                -1_099_511_627_776 <= v <= 1_099_511_627_776 + 16_000_000,
        ;
    }
    q as i32
}

impl TileMap {
    /// Whether a player box at `p` touches a solid tile of this map.
    pub fn collides_at(&self, p: Vec2i) -> (r: bool)
        requires
            in_bounds(p),
        ensures
            r == collides(*self, p),
    {
        if self.tile_size == 0 {
            return false;
        }
        let size: i64 = self.tile_size as i64 * UNITS_PER_PIXEL;
        let min = (cell_index(p.x, size), cell_index(p.y, size));
        let max = (cell_index(p.x + PLAYER_SIZE, size), cell_index(p.y + PLAYER_SIZE, size));
        let a = self.get(min);
        let b = self.get(max);
        let hit_min = match a {
            Some(t) => t.collision,
            None => false,
        };
        let hit_max = match b {
            Some(t) => t.collision,
            None => false,
        };
        hit_min || hit_max
    }
}


/// One tile map of a level: the tile set image path, the cell size in
/// pixels, and the grid of tiles, rows top to bottom.
pub type TileMapSource = (String, u32, Vec<Vec<Option<Tile>>>);

/// What a level holds: an optional player and its tile maps.
#[derive(Clone, Debug)]
pub struct Level {
    pub player: Option<Player>,
    pub tilemaps: Vec<TileMapSource>,
}

/// The world: at most one player, the loaded tile maps and the camera.
#[derive(Clone, Debug)]
pub struct World {
    pub player: Option<Player>,
    pub camera: Camera,
    pub tilemaps: Vec<TileMap>,
}

/// The grid of a tile map as nested sequences.
pub open spec fn grid_view(tiles: Seq<Vec<Option<Tile>>>) -> Seq<Seq<Option<Tile>>> {
    tiles.map_values(|row: Vec<Option<Tile>>| row@)
}

/// `m` was made from the level entry `src`.
pub open spec fn built_from(m: TileMap, src: TileMapSource) -> bool {
    m.tileset@ == src.0@ && m.tile_size == src.1 && m.tiles@ == src.2@
}

/// `maps` were made from `srcs`, one for one and in order.
pub open spec fn maps_built_from(maps: Seq<TileMap>, srcs: Seq<TileMapSource>) -> bool {
    maps.len() == srcs.len() && forall|i: int| 0 <= i < maps.len() ==> #[trigger] built_from(maps[i], srcs[i])
}

impl World {
    pub open spec fn wf(&self) -> bool {
        self.camera.wf() && match self.player {
            Some(p) => p.wf(),
            None => true,
        }
    }

    /// An empty world: no player, no tile maps, the camera at the origin.
    pub fn new() -> (r: Self)
        ensures
            r.player is None,
            r.tilemaps@.len() == 0,
            r.camera.target == (Vec2i { x: 0, y: 0 }),
            r.wf(),
    {
        World { player: None, camera: Camera { target: Vec2i { x: 0, y: 0 } }, tilemaps: Vec::new() }
    }

    /// Loads `level`: its player, if it has one, replaces the current player;
    /// the tile maps are cleared and rebuilt from the level's entries, in
    /// order. The renderer loads each tile set image by its path.
    pub fn load_level(&mut self, level: Level)
        requires
            old(self).wf(),
            match level.player {
                Some(p) => p.wf(),
                None => true,
            },
        ensures
            final(self).player == (match level.player {
                Some(p) => Some(p),
                None => old(self).player,
            }),
            final(self).tilemaps@.len() == level.tilemaps@.len(),
            maps_built_from(final(self).tilemaps@, level.tilemaps@),
            final(self).camera == old(self).camera,
            final(self).wf(),
    {
        if let Some(p) = level.player {
            self.player = Some(p);
        }
        self.tilemaps.clear();
        let mut rest = level.tilemaps;
        let ghost srcs = rest@;
        while rest.len() > 0
            invariant
                self.wf(),
                self.camera == old(self).camera,
                self.player == (match level.player {
                    Some(p) => Some(p),
                    None => old(self).player,
                }),
                self.tilemaps@.len() + rest@.len() == srcs.len(),
                rest@ == srcs.subrange(self.tilemaps@.len() as int, srcs.len() as int),
                forall|i: int| 0 <= i < self.tilemaps@.len() ==> #[trigger] built_from(self.tilemaps@[i], srcs[i]),
            decreases rest.len(),
        {
            let ghost k = self.tilemaps@.len();
            let ghost before = rest@;
            let (path, size, grid) = rest.remove(0);
            assert(srcs[k as int] == before[0]);
            self.tilemaps.push(TileMap { tiles: grid, tile_size: size, tileset: path });
            assert(rest@ =~= srcs.subrange(self.tilemaps@.len() as int, srcs.len() as int));
        }
    }

    /// One frame of the world: the player, if there is one, takes one
    /// physics step against the loaded tile maps and the camera follows it.
    pub fn update(&mut self, input: &FrameInput, dt_ms: u32)
        requires
            old(self).wf(),
        ensures
            final(self).wf(),
            final(self).tilemaps == old(self).tilemaps,
            match old(self).player {
                Some(p) => final(self).player == Some(step(p, *input, dt_ms, old(self).tilemaps@))
                    && final(self).camera.target == follow(old(self).camera.target, p.position, dt_ms),
                None => final(self).player is None && final(self).camera == old(self).camera,
            },
    {
        match self.player {
            Some(p) => {
                let mut p = p;
                p.update(input, dt_ms, &mut self.camera, &self.tilemaps);
                self.player = Some(p);
            },
            None => {},
        }
    }
}

} // verus!
