//! The entity store's records. An entity gains behaviour by the
//! components it carries: a velocity makes the physics pass move it, a
//! gravity makes it fall, a parallax record makes it scroll and wrap,
//! the pipe tag makes it a collider, the despawn tag lets it be removed
//! once off-screen. The player is a dedicated record of its own: exactly
//! one exists, is never despawned, and carries velocity and gravity.

use vstd::prelude::*;

use crate::consts::{ACC_LIMIT, LOOP_LIMIT, MAX_VELOCITY_Y, POS_LIMIT, SIZE_LIMIT, VEL_LIMIT};
use crate::geom::Vec2;

verus! {

/// A scrolling background layer: it drifts left at `speed` and wraps
/// seamlessly with period `loop_x`.
#[derive(Clone, Copy, Debug, PartialEq, Eq, Structural)]
pub struct Parallax {
    /// Leftward scroll speed, milli-units per second.
    pub speed: i64,
    /// Wrap period: the layer's x stays in the band of width `loop_x`
    /// centered on the origin-side offset `loop_x / 2`.
    pub loop_x: i64,
}

/// One row of the entity store.
#[derive(Clone, Copy, Debug, PartialEq, Eq)]
pub struct Entity {
    /// Rows are never reordered; a despawned row is marked dead instead.
    pub alive: bool,
    /// Center of the entity's sprite, milli-units.
    pub pos: Vec2,
    /// Extent of the entity's sprite, milli-units.
    pub size: Vec2,
    /// Present on entities the physics pass moves.
    pub vel: Option<Vec2>,
    /// Downward acceleration, present on entities that fall.
    pub gravity: Option<i64>,
    /// Present on background layers that scroll and wrap.
    pub parallax: Option<Parallax>,
    /// Obstacle tag: the collision pass tests the player against it.
    pub is_pipe: bool,
    /// Tag of the game-over message; despawned on restart.
    pub is_game_over_ui: bool,
    /// Off-screen cleanup tag: the despawn pass may remove it.
    pub offscreen_despawn: bool,
}

/// The player: position, sprite extent, velocity and gravity.
#[derive(Clone, Copy, Debug, PartialEq, Eq, Structural)]
pub struct Player {
    pub pos: Vec2,
    pub size: Vec2,
    pub vel: Vec2,
    /// Downward acceleration, milli-units per second squared.
    pub gravity: i64,
}

/// Whether `x` lies in the wrap band of a layer with period `loop_x`:
/// the half-open interval of width `loop_x` ending at `loop_x / 2`.
pub open spec fn in_band(x: int, loop_x: int) -> bool {
    loop_x / 2 - loop_x < x <= loop_x / 2
}

/// Well-formed plane vector used as a position.
pub open spec fn pos_wf(p: Vec2) -> bool {
    &&& -POS_LIMIT <= p.x <= POS_LIMIT
    &&& -POS_LIMIT <= p.y <= POS_LIMIT
}

/// Well-formed plane vector used as a sprite extent.
pub open spec fn size_wf(s: Vec2) -> bool {
    &&& 0 <= s.x <= SIZE_LIMIT
    &&& 0 <= s.y <= SIZE_LIMIT
}

/// Well-formed plane vector used as a velocity: the vertical component
/// keeps the data model's terminal-speed bound, enforced after every
/// mutation.
pub open spec fn vel_wf(v: Vec2) -> bool {
    &&& -VEL_LIMIT <= v.x <= VEL_LIMIT
    &&& -MAX_VELOCITY_Y <= v.y <= MAX_VELOCITY_Y
}

/// Well-formedness of one store row: all magnitudes within the world's
/// limits, and a parallax layer keeps its x in the wrap band and is
/// moved by the parallax pass alone, never by the physics pass.
pub open spec fn entity_wf(e: Entity) -> bool {
    &&& pos_wf(e.pos)
    &&& size_wf(e.size)
    &&& (e.vel matches Some(v) ==> vel_wf(v))
    &&& (e.gravity matches Some(g) ==> 0 <= g <= ACC_LIMIT)
    &&& (e.parallax matches Some(p) ==> {
        &&& 0 < p.loop_x <= LOOP_LIMIT
        &&& 0 <= p.speed <= VEL_LIMIT
        &&& in_band(e.pos.x as int, p.loop_x as int)
        &&& e.vel is None
    })
}

/// Well-formedness of the player record.
pub open spec fn player_wf(p: Player) -> bool {
    &&& pos_wf(p.pos)
    &&& size_wf(p.size)
    &&& vel_wf(p.vel)
    &&& 0 <= p.gravity <= ACC_LIMIT
}

} // verus!
