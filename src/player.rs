use vstd::prelude::*;

use crate::geom::{
    clamp, clamp_i64, scale_toward_zero, scale_toward_zero_spec, Vec2i, COORD_LIMIT,
    VELOCITY_LIMIT,
};
use crate::world::{any_collides, collides, in_bounds, Camera, TileMap, PLAYER_SIZE};

verus! {

/// Velocity added by a held move key in one frame (100 pixels per second).
pub const WALK_IMPULSE: i64 = 100_000;

/// Upward velocity given by a jump (30 pixels per second).
pub const JUMP_IMPULSE: i64 = 30_000;

/// Downward acceleration, added to the vertical velocity per millisecond
/// (50 pixels per second squared).
pub const GRAVITY: i64 = 50;

/// Rate at which the camera closes on the player, per second.
pub const CAMERA_RATE: u64 = 3;

/// Friction of a fresh player: thousandths of the horizontal velocity lost
/// per millisecond.
pub const DEFAULT_WALKING_FRICTION: u32 = 5;

/// Scale factors are given in thousandths.
pub const SCALE_ONE: i64 = 1000;

/// What the player pressed this frame.
#[derive(Clone, Copy, Debug, PartialEq, Eq, Default)]
pub struct FrameInput {
    /// "Move right" is held.
    pub right: bool,
    /// "Move left" is held.
    pub left: bool,
    /// "Jump" was pressed this frame.
    pub jump: bool,
    /// "Confirm" is held.
    pub confirm: bool,
}

/// The player: position (top-left corner of its box) and velocity in
/// sub-pixel units, a scale in thousandths, and the friction that slows its
/// walking.
#[derive(Clone, Copy, Debug, PartialEq, Eq)]
pub struct Player {
    pub position: Vec2i,
    pub scale: Vec2i,
    pub velocity: Vec2i,
    pub walking_friction: u32,
}

/// The velocity after this frame's input and gravity.
pub open spec fn driven_velocity(v: Vec2i, input: FrameInput, dt: u32) -> Vec2i {
    let walk: int = (if input.right { WALK_IMPULSE as int } else { 0 }) - (if input.left {
        WALK_IMPULSE as int
    } else {
        0
    });
    let jump: int = if input.jump && v.y == 0 { JUMP_IMPULSE as int } else { 0 };
    Vec2i {
        x: clamp(v.x + walk, VELOCITY_LIMIT as int) as i64,
        y: clamp(v.y - jump + GRAVITY * dt, VELOCITY_LIMIT as int) as i64,
    }
}

/// `pos` moved by `v` for `dt` milliseconds, kept within `COORD_LIMIT`.
pub open spec fn integrate(pos: Vec2i, v: Vec2i, dt: u32) -> Vec2i {
    Vec2i {
        x: clamp(pos.x + v.x * dt, COORD_LIMIT as int) as i64,
        y: clamp(pos.y + v.y * dt, COORD_LIMIT as int) as i64,
    }
}

/// Thousandths of the horizontal velocity kept after `dt` milliseconds of
/// friction: the velocity decays toward zero, never past it.
pub open spec fn friction_keep(friction: u32, dt: u32) -> int {
    if friction * dt >= 1000 { 0 } else { 1000 - friction * dt }
}

/// The horizontal velocity after friction.
pub open spec fn with_friction(vx: int, friction: u32, dt: u32) -> int {
    scale_toward_zero_spec(vx, friction_keep(friction, dt), 1000)
}

/// Thousandths of the distance to the player that the camera covers in `dt`
/// milliseconds (all of it at most).
pub open spec fn follow_fraction(dt: u32) -> int {
    if CAMERA_RATE * dt >= 1000 { 1000 } else { CAMERA_RATE * dt }
}

/// One coordinate of the camera moved toward `goal`.
pub open spec fn follow_axis(t: int, goal: int, dt: u32) -> int {
    clamp(t + scale_toward_zero_spec(goal - t, follow_fraction(dt), 1000), COORD_LIMIT as int)
}

/// The camera target after one frame: it moves toward the centre of the
/// player's box by a fraction of the distance that grows with `dt`.
pub open spec fn follow(target: Vec2i, pos: Vec2i, dt: u32) -> Vec2i {
    Vec2i {
        x: follow_axis(target.x as int, pos.x + PLAYER_SIZE / 2, dt) as i64,
        y: follow_axis(target.y as int, pos.y + PLAYER_SIZE / 2, dt) as i64,
    }
}

/// One physics step of `p`: input and gravity change the velocity, the
/// position moves by it, friction slows the horizontal velocity, and when
/// the moved box touches a solid tile the move is undone and the player
/// stops.
pub open spec fn step(p: Player, input: FrameInput, dt: u32, maps: Seq<TileMap>) -> Player {
    let v = driven_velocity(p.velocity, input, dt);
    let moved = integrate(p.position, v, dt);
    if any_collides(maps, moved) {
        Player {
            position: p.position,
            scale: p.scale,
            velocity: Vec2i { x: 0, y: 0 },
            walking_friction: p.walking_friction,
        }
    } else {
        Player {
            position: moved,
            scale: p.scale,
            velocity: Vec2i { x: with_friction(v.x as int, p.walking_friction, dt) as i64, y: v.y },
            walking_friction: p.walking_friction,
        }
    }
}

/// A fresh player at the origin.
pub open spec fn default_player() -> Player {
    Player {
        position: Vec2i { x: 0, y: 0 },
        scale: Vec2i { x: SCALE_ONE, y: SCALE_ONE },
        velocity: Vec2i { x: 0, y: 0 },
        walking_friction: DEFAULT_WALKING_FRICTION,
    }
}

impl Player {
    /// Position and velocity stay within their limits.
    pub open spec fn wf(&self) -> bool {
        in_bounds(self.position) && -VELOCITY_LIMIT <= self.velocity.x <= VELOCITY_LIMIT
            && -VELOCITY_LIMIT <= self.velocity.y <= VELOCITY_LIMIT
    }

    pub fn new() -> (r: Self)
        ensures
            r == default_player(),
            r.wf(),
    {
        Player {
            position: Vec2i { x: 0, y: 0 },
            scale: Vec2i { x: SCALE_ONE, y: SCALE_ONE },
            velocity: Vec2i { x: 0, y: 0 },
            walking_friction: DEFAULT_WALKING_FRICTION,
        }
    }

    /// Advances the player by `dt_ms` milliseconds: see `step`. The camera
    /// follows the player's position from before the move.
    pub fn update(&mut self, input: &FrameInput, dt_ms: u32, camera: &mut Camera, tilemaps: &Vec<TileMap>)
        requires
            old(self).wf(),
            old(camera).wf(),
        ensures
            *final(self) == step(*old(self), *input, dt_ms, tilemaps@),
            final(self).wf(),
            final(camera).target == follow(old(camera).target, old(self).position, dt_ms),
            final(camera).wf(),
    {
        // Input and gravity.
        let mut vx: i64 = self.velocity.x;
        if input.right {
            vx = vx + WALK_IMPULSE;
        }
        if input.left {
            vx = vx - WALK_IMPULSE;
        }
        let mut vy: i64 = self.velocity.y;
        if input.jump && self.velocity.y == 0 {
            vy = vy - JUMP_IMPULSE;
        }
        vy = vy + GRAVITY * dt_ms as i64;
        let v = Vec2i { x: clamp_i64(vx, VELOCITY_LIMIT), y: clamp_i64(vy, VELOCITY_LIMIT) };
        proof {
            assert(v == driven_velocity(old(self).velocity, *input, dt_ms));
        }

        // The camera closes on the centre of the player's box.
        let fraction: u64 = if CAMERA_RATE * dt_ms as u64 >= 1000 {
            1000
        } else {
            CAMERA_RATE * dt_ms as u64
        };
        let half: i64 = PLAYER_SIZE / 2;
        let tx = camera.target.x + scale_toward_zero(self.position.x + half - camera.target.x, fraction, 1000);
        let ty = camera.target.y + scale_toward_zero(self.position.y + half - camera.target.y, fraction, 1000);
        camera.target = Vec2i { x: clamp_i64(tx, COORD_LIMIT), y: clamp_i64(ty, COORD_LIMIT) };

        // Move.
        proof {
            assert(-VELOCITY_LIMIT * 4_294_967_295 <= v.x * dt_ms <= VELOCITY_LIMIT * 4_294_967_295)
                by (nonlinear_arith)
                requires -VELOCITY_LIMIT <= v.x <= VELOCITY_LIMIT, 0 <= dt_ms <= 4_294_967_295;
            assert(-VELOCITY_LIMIT * 4_294_967_295 <= v.y * dt_ms <= VELOCITY_LIMIT * 4_294_967_295)
                by (nonlinear_arith)
                requires -VELOCITY_LIMIT <= v.y <= VELOCITY_LIMIT, 0 <= dt_ms <= 4_294_967_295;
        }
        let moved = Vec2i {
            x: clamp_i64(self.position.x + v.x * dt_ms as i64, COORD_LIMIT),
            y: clamp_i64(self.position.y + v.y * dt_ms as i64, COORD_LIMIT),
        };

        // Friction.
        proof {
            let f = self.walking_friction;
            assert(f * dt_ms <= 4_294_967_295 * 4_294_967_295) by (nonlinear_arith)
                requires 0 <= f <= 4_294_967_295, 0 <= dt_ms <= 4_294_967_295;
        }
        let loss: u64 = self.walking_friction as u64 * dt_ms as u64;
        let keep: u64 = if loss >= 1000 { 0 } else { 1000 - loss };
        let slowed_x = scale_toward_zero(v.x, keep, 1000);

        // Collision.
        let mut hit = false;
        let mut i: usize = 0;
        while i < tilemaps.len()
            invariant
                i <= tilemaps.len(),
                in_bounds(moved),
                hit == exists|j: int| 0 <= j < i && #[trigger] collides(tilemaps@[j], moved),
            decreases tilemaps.len() - i,
        {
            if tilemaps[i].collides_at(moved) {
                hit = true;
            }
            i = i + 1;
        }
        if hit {
            self.velocity = Vec2i { x: 0, y: 0 };
        } else {
            self.position = moved;
            self.velocity = Vec2i { x: slowed_x, y: v.y };
        }
    }
}

impl Default for Player {
    fn default() -> (r: Self)
        ensures
            r == default_player(),
    {
        Player::new()
    }
}

} // verus!
