use vstd::prelude::*;

use crate::player::Player;
use crate::world::{Tile, TileMap, World};

verus! {

/// A fixed piece of on-screen text.
#[derive(Clone, Copy, Debug, PartialEq, Eq)]
pub enum TextLabel {
    Startup,
    Loading,
    Title,
    PressEnter,
}

/// Which view transform the following commands are drawn with.
#[derive(Clone, Copy, Debug, PartialEq, Eq)]
pub enum CameraKind {
    /// The world camera, drawing into the off-screen render target.
    World,
    /// The zoomed view of the title screen.
    Title,
    /// Plain screen coordinates.
    Screen,
}

/// One step of a frame's rendering, carried out in order by the renderer.
#[derive(Clone, Copy, Debug, PartialEq, Eq)]
pub enum DrawCmd {
    SetCamera(CameraKind),
    /// Fill the current target with an opaque colour.
    Clear { r: u8, g: u8, b: u8 },
    /// White text with its baseline origin at (`x`, `y`) and the given font size.
    Text { label: TextLabel, x: i32, y: i32, size: u32 },
    /// The cell `source` of tile map `map`'s tile set, drawn over grid cell
    /// (`column`, `row`) of that map.
    Tile { map: usize, column: usize, row: usize, source: (u32, u32) },
    /// The player's box with its top-left corner at (`x`, `y`), in sub-pixel
    /// units.
    PlayerBox { x: i64, y: i64 },
    /// Copy the render target over the whole screen.
    PresentTarget,
}

/// Background colour of the world view.
pub const WORLD_BACKGROUND: u8 = 32;

/// The command for one cell: a tile draw for a present tile, nothing for an
/// empty cell.
pub open spec fn cell_cmds(map: int, column: int, row: int, cell: Option<Tile>) -> Seq<DrawCmd> {
    match cell {
        Some(t) => seq![DrawCmd::Tile { map: map as usize, column: column as usize, row: row as usize, source: t.location }],
        None => seq![],
    }
}

/// The commands for the cells of one row, left to right.
pub open spec fn row_cmds(map: int, row: int, cells: Seq<Option<Tile>>) -> Seq<DrawCmd>
    decreases cells.len(),
{
    if cells.len() == 0 {
        seq![]
    } else {
        row_cmds(map, row, cells.drop_last()) + cell_cmds(map, cells.len() - 1, row, cells.last())
    }
}

/// The commands for a whole grid, row by row from the top.
pub open spec fn grid_cmds(map: int, rows: Seq<Vec<Option<Tile>>>) -> Seq<DrawCmd>
    decreases rows.len(),
{
    if rows.len() == 0 {
        seq![]
    } else {
        grid_cmds(map, rows.drop_last()) + row_cmds(map, rows.len() - 1, rows.last()@)
    }
}

/// The commands for all tile maps, in order.
pub open spec fn maps_cmds(maps: Seq<TileMap>) -> Seq<DrawCmd>
    decreases maps.len(),
{
    if maps.len() == 0 {
        seq![]
    } else {
        maps_cmds(maps.drop_last()) + grid_cmds(maps.len() - 1, maps.last().tiles@)
    }
}

pub open spec fn player_cmd(p: Player) -> DrawCmd {
    DrawCmd::PlayerBox { x: p.position.x, y: p.position.y }
}

/// A frame of the world: the world camera, the background, every present
/// tile, and the player on top.
pub open spec fn world_cmds(w: World) -> Seq<DrawCmd> {
    seq![
        DrawCmd::SetCamera(CameraKind::World),
        DrawCmd::Clear { r: WORLD_BACKGROUND, g: WORLD_BACKGROUND, b: WORLD_BACKGROUND },
    ] + maps_cmds(w.tilemaps@) + match w.player {
        Some(p) => seq![player_cmd(p)],
        None => seq![],
    }
}

impl Player {
    /// The player's box at its position.
    pub fn draw(&self) -> (r: DrawCmd)
        ensures
            r == player_cmd(*self),
    {
        DrawCmd::PlayerBox { x: self.position.x, y: self.position.y }
    }
}

/// Appends the commands of tile map number `index` to `out`.
fn draw_map(map: &TileMap, index: usize, out: &mut Vec<DrawCmd>)
    ensures
        final(out)@ == old(out)@ + grid_cmds(index as int, map.tiles@),
{
    let ghost start = out@;
    let mut y: usize = 0;
    while y < map.tiles.len()
        invariant
            y <= map.tiles@.len(),
            out@ == start + grid_cmds(index as int, map.tiles@.take(y as int)),
        decreases map.tiles@.len() - y,
    {
        let row = &map.tiles[y];
        let ghost row_start = out@;
        let mut x: usize = 0;
        while x < row.len()
            invariant
                x <= row@.len(),
                row == map.tiles@[y as int],
                out@ == row_start + row_cmds(index as int, y as int, row@.take(x as int)),
            decreases row@.len() - x,
        {
            let ghost before = out@;
            match row[x] {
                Some(t) => {
                    out.push(DrawCmd::Tile { map: index, column: x, row: y, source: t.location });
                },
                None => {},
            }
            proof {
                let cells = row@.take(x + 1);
                assert(cells.drop_last() =~= row@.take(x as int));
                assert(cells.last() == row@[x as int]);
                assert(out@ =~= row_start + row_cmds(index as int, y as int, cells));
            }
            x = x + 1;
        }
        proof {
            assert(row@.take(x as int) =~= row@);
            let rows = map.tiles@.take(y + 1);
            assert(rows.drop_last() =~= map.tiles@.take(y as int));
            assert(rows.last() == map.tiles@[y as int]);
            assert(out@ =~= start + grid_cmds(index as int, rows));
        }
        y = y + 1;
    }
    assert(map.tiles@.take(y as int) =~= map.tiles@);
}

impl World {
    /// The commands that draw the world: see `world_cmds`. Drawing reads the
    /// world and changes nothing.
    pub fn draw(&self) -> (r: Vec<DrawCmd>)
        ensures
            r@ == world_cmds(*self),
    {
        let mut out: Vec<DrawCmd> = Vec::new();
        out.push(DrawCmd::SetCamera(CameraKind::World));
        out.push(DrawCmd::Clear { r: WORLD_BACKGROUND, g: WORLD_BACKGROUND, b: WORLD_BACKGROUND });
        let ghost head = out@;
        let mut i: usize = 0;
        while i < self.tilemaps.len()
            invariant
                i <= self.tilemaps@.len(),
                out@ == head + maps_cmds(self.tilemaps@.take(i as int)),
            decreases self.tilemaps@.len() - i,
        {
            let ghost before = out@;
            draw_map(&self.tilemaps[i], i, &mut out);
            proof {
                let maps = self.tilemaps@.take(i + 1);
                assert(maps.drop_last() =~= self.tilemaps@.take(i as int));
                assert(maps.last() == self.tilemaps@[i as int]);
                assert(out@ =~= head + maps_cmds(maps));
            }
            i = i + 1;
        }
        assert(self.tilemaps@.take(i as int) =~= self.tilemaps@);
        match &self.player {
            Some(p) => {
                out.push(p.draw());
            },
            None => {},
        }
        assert(out@ =~= world_cmds(*self));
        out
    }
}

} // verus!
