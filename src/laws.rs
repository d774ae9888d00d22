use vstd::prelude::*;

use crate::game::{next_state, GameState};
use crate::geom::{clamp, Vec2i, COORD_LIMIT, VELOCITY_LIMIT};
use crate::player::{driven_velocity, integrate, step, FrameInput, Player, GRAVITY};
use crate::world::{any_collides, cell_of, collides, solid, TileMap, PLAYER_SIZE};

verus! {

/// The state machine: startup always moves on to the title screen; the
/// title screen moves on to loading exactly when confirm is held and
/// otherwise stays; loading always moves on to gameplay.
pub proof fn state_transitions(confirm: bool)
    ensures
        next_state(GameState::Startup, confirm) == GameState::TitleScreen,
        next_state(GameState::TitleScreen, confirm) == GameState::Loading <==> confirm,
        !confirm ==> next_state(GameState::TitleScreen, confirm) == GameState::TitleScreen,
        next_state(GameState::Loading, confirm) == GameState::Gameplay,
        next_state(GameState::Gameplay, confirm) == GameState::Gameplay,
{
}

/// Gravity: without a jump, a step that hits nothing adds exactly
/// `GRAVITY * dt` to the downward velocity (while the velocity stays under
/// its limit).
pub proof fn gravity_accelerates(p: Player, input: FrameInput, dt: u32, maps: Seq<TileMap>)
    requires
        p.wf(),
        !input.jump,
        p.velocity.y + GRAVITY * dt <= VELOCITY_LIMIT,
        !any_collides(maps, integrate(p.position, driven_velocity(p.velocity, input, dt), dt)),
    ensures
        step(p, input, dt, maps).velocity.y == p.velocity.y + GRAVITY * dt,
        step(p, input, dt, maps).velocity.y >= p.velocity.y,
{
}

/// A player at rest with no input falls: after one step that hits nothing
/// its downward velocity is `GRAVITY * dt`, its horizontal velocity stays
/// zero, and it has moved down by that velocity times `dt` and not sideways.
pub proof fn free_fall(p: Player, dt: u32, maps: Seq<TileMap>)
    requires
        p.wf(),
        p.velocity == (Vec2i { x: 0, y: 0 }),
        GRAVITY * dt <= VELOCITY_LIMIT,
        !any_collides(maps, integrate(p.position, driven_velocity(p.velocity, FrameInput { right: false, left: false, jump: false, confirm: false }, dt), dt)),
    ensures
        ({
            let q = step(p, FrameInput { right: false, left: false, jump: false, confirm: false }, dt, maps);
            &&& q.velocity == (Vec2i { x: 0, y: (GRAVITY * dt) as i64 })
            &&& q.position.x == p.position.x
            &&& q.position.y == clamp(p.position.y + (GRAVITY * dt) * dt, COORD_LIMIT as int)
        }),
{
    let input = FrameInput { right: false, left: false, jump: false, confirm: false };
    let v = driven_velocity(p.velocity, input, dt);
    assert(v.x == 0);
    assert(v.x * dt == 0);
}

/// Collision: when the moved box's top-left or bottom-right sample cell in
/// some map holds a tile marked as colliding, the step leaves the position
/// as it was and stops the player.
pub proof fn collision_reverts(p: Player, input: FrameInput, dt: u32, maps: Seq<TileMap>, i: int)
    requires
        0 <= i < maps.len(),
        maps[i].tile_size > 0,
        ({
            let moved = integrate(p.position, driven_velocity(p.velocity, input, dt), dt);
            let m = maps[i];
            solid(m.tile_at(cell_of(m, moved.x as int), cell_of(m, moved.y as int)))
                || solid(m.tile_at(cell_of(m, moved.x + PLAYER_SIZE), cell_of(m, moved.y + PLAYER_SIZE)))
        }),
    ensures
        step(p, input, dt, maps).position == p.position,
        step(p, input, dt, maps).velocity == (Vec2i { x: 0, y: 0 }),
{
    let moved = integrate(p.position, driven_velocity(p.velocity, input, dt), dt);
    assert(collides(maps[i], moved));
}

/// No collision: when no sample cell of the moved box in any map holds a
/// tile marked as colliding (they are empty, outside the grid, or hold
/// tiles that do not collide), the step keeps the integrated position.
pub proof fn free_move_kept(p: Player, input: FrameInput, dt: u32, maps: Seq<TileMap>)
    requires
        forall|i: int| 0 <= i < maps.len() ==> !#[trigger] collides(maps[i], integrate(p.position, driven_velocity(p.velocity, input, dt), dt)),
    ensures
        step(p, input, dt, maps).position == integrate(p.position, driven_velocity(p.velocity, input, dt), dt),
{
}

} // verus!
