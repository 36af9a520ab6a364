//! The physics pass: gravity integration, terminal-velocity clamping
//! and position integration, for the player and for every live entity
//! that carries a velocity.
//!
//! Order within one tick, fixed because it changes the numbers: the
//! vertical velocity is first decayed by gravity (when the round is
//! running) and clamped at the terminal fall speed, and the position is
//! then integrated with the updated velocity.

use vstd::prelude::*;

use crate::consts::{ACC_LIMIT, DT_LIMIT, MAX_VELOCITY_Y, SCALE, VEL_LIMIT};
use crate::entity::{entity_wf, Entity, Player};
use crate::geom::{advance, advance_spec, scaled, scaled_spec};

verus! {

/// Vertical velocity after one tick of gravity `g` over `dt`
/// milliseconds, clamped at the terminal fall speed.
pub open spec fn gravity_step_vy(vy: int, g: int, dt: int) -> int {
    let dropped = vy - scaled_spec(g, dt);
    if dropped < -MAX_VELOCITY_Y {
        -MAX_VELOCITY_Y as int
    } else {
        dropped
    }
}

/// Vertical velocity after `n` gravity ticks with no flap impulse in
/// between.
pub open spec fn vy_after_ticks(vy0: int, g: int, dt: int, n: nat) -> int
    decreases n,
{
    if n == 0 {
        vy0
    } else {
        gravity_step_vy(vy_after_ticks(vy0, g, dt, (n - 1) as nat), g, dt)
    }
}

/// Under constant gravity and with no flap impulse, vertical velocity
/// is monotonically non-increasing from tick to tick and never drops
/// below the terminal fall speed.
pub proof fn lemma_gravity_monotone(vy0: int, g: int, dt: int, n: nat)
    requires
        0 <= g,
        0 <= dt,
        -MAX_VELOCITY_Y <= vy0,
    ensures
        vy_after_ticks(vy0, g, dt, n + 1) <= vy_after_ticks(vy0, g, dt, n),
        -MAX_VELOCITY_Y <= vy_after_ticks(vy0, g, dt, n),
    decreases n,
{
    vstd::arithmetic::mul::lemma_mul_nonnegative(g, dt);
    vstd::arithmetic::div_mod::lemma_div_pos_is_pos(g * dt, SCALE as int);
    if n > 0 {
        lemma_gravity_monotone(vy0, g, dt, (n - 1) as nat);
    }
}

/// One in-round physics tick moves the player's vertical velocity along
/// exactly the recurrence the monotonicity law speaks of.
pub proof fn lemma_player_tick_follows_recurrence(p: Player, q: Player, dt: int)
    requires
        player_stepped(p, q, dt, true),
    ensures
        q.vel.y == vy_after_ticks(p.vel.y as int, p.gravity as int, dt, 1),
{
    assert(vy_after_ticks(p.vel.y as int, p.gravity as int, dt, 0) == p.vel.y);
}

/// Vertical velocity after one tick of gravity.
pub fn gravity_step(vy: i64, g: i64, dt: i64) -> (r: i64)
    requires
        -VEL_LIMIT <= vy <= VEL_LIMIT,
        0 <= g <= ACC_LIMIT,
        0 <= dt <= DT_LIMIT,
    ensures
        r == gravity_step_vy(vy as int, g as int, dt as int),
        -MAX_VELOCITY_Y <= r <= VEL_LIMIT,
{
    let d = scaled(g, dt);
    let dropped = vy - d;
    if dropped < -MAX_VELOCITY_Y {
        -MAX_VELOCITY_Y
    } else {
        dropped
    }
}

/// Exact effect of one physics tick on the player: gravity applies only
/// while a round is running, the position always integrates.
pub open spec fn player_stepped(p: Player, q: Player, dt: int, in_game: bool) -> bool {
    let vy = if in_game {
        gravity_step_vy(p.vel.y as int, p.gravity as int, dt)
    } else {
        p.vel.y as int
    };
    &&& q.vel.x == p.vel.x
    &&& q.vel.y == vy
    &&& q.pos.x == advance_spec(p.pos.x as int, p.vel.x as int, dt)
    &&& q.pos.y == advance_spec(p.pos.y as int, vy, dt)
    &&& q.size == p.size
    &&& q.gravity == p.gravity
}

/// Exact effect of one physics tick on one store row: a live row with a
/// velocity moves (and falls, if it carries gravity and a round is
/// running); every other row is untouched.
pub open spec fn entity_stepped(e: Entity, f: Entity, dt: int, in_game: bool) -> bool {
    if e.alive && e.vel is Some {
        let v = e.vel->Some_0;
        let vy = if in_game && e.gravity is Some {
            gravity_step_vy(v.y as int, e.gravity->Some_0 as int, dt)
        } else {
            v.y as int
        };
        &&& f.vel matches Some(fv) && fv.x == v.x && fv.y == vy
        &&& f.pos.x == advance_spec(e.pos.x as int, v.x as int, dt)
        &&& f.pos.y == advance_spec(e.pos.y as int, vy, dt)
        &&& f.alive == e.alive
        &&& f.size == e.size
        &&& f.gravity == e.gravity
        &&& f.parallax == e.parallax
        &&& f.is_pipe == e.is_pipe
        &&& f.is_game_over_ui == e.is_game_over_ui
        &&& f.offscreen_despawn == e.offscreen_despawn
    } else {
        f == e
    }
}

/// One physics tick for the player record alone.
pub fn step_player(p: &mut Player, dt: i64, in_game: bool)
    requires
        crate::entity::player_wf(*old(p)),
        0 <= dt <= DT_LIMIT,
    ensures
        player_stepped(*old(p), *final(p), dt as int, in_game),
        crate::entity::player_wf(*final(p)),
{
    if in_game {
        p.vel.y = gravity_step(p.vel.y, p.gravity, dt);
    }
    p.pos.x = advance(p.pos.x, p.vel.x, dt);
    p.pos.y = advance(p.pos.y, p.vel.y, dt);
}

/// One physics tick for one store row.
pub fn step_entity(e: &mut Entity, dt: i64, in_game: bool)
    requires
        entity_wf(*old(e)),
        0 <= dt <= DT_LIMIT,
    ensures
        entity_stepped(*old(e), *final(e), dt as int, in_game),
        entity_wf(*final(e)),
{
    if e.alive {
        match e.vel {
            Some(v) => {
                let vy = match e.gravity {
                    Some(g) if in_game => gravity_step(v.y, g, dt),
                    _ => v.y,
                };
                let px = advance(e.pos.x, v.x, dt);
                let py = advance(e.pos.y, vy, dt);
                e.vel = Some(crate::geom::Vec2 { x: v.x, y: vy });
                e.pos = crate::geom::Vec2 { x: px, y: py };
            },
            None => {},
        }
    }
}

} // verus!
