//! The parallax pass: background layers drift left at their own speed
//! and wrap seamlessly with their own period, so that motion is
//! continuous in velocity and periodic in position.

use vstd::prelude::*;

use crate::consts::{DT_LIMIT, LOOP_LIMIT, SCALE, VEL_LIMIT};
use crate::entity::{entity_wf, in_band, Entity};
use crate::geom::{scaled, scaled_spec};

verus! {

/// New x of a layer at `x` that scrolled left at `speed` for `dt`
/// milliseconds and wraps with period `loop_x`: the travelled distance
/// is added to the layer's offset from the band's upper edge
/// `loop_x / 2`, wrapped modulo the period, and mapped back.
pub open spec fn parallax_step_x(x: int, speed: int, loop_x: int, dt: int) -> int {
    let offset = loop_x / 2;
    offset - (offset - x + scaled_spec(speed, dt)) % loop_x
}

/// Wrapping keeps a layer inside its band.
pub proof fn lemma_parallax_step_in_band(x: int, speed: int, loop_x: int, dt: int)
    requires
        0 < loop_x,
        in_band(x, loop_x),
        0 <= speed,
        0 <= dt,
    ensures
        in_band(parallax_step_x(x, speed, loop_x, dt), loop_x),
{
    let offset = loop_x / 2;
    let u = offset - x + scaled_spec(speed, dt);
    vstd::arithmetic::div_mod::lemma_div_pos_is_pos(speed * dt, SCALE as int);
    vstd::arithmetic::div_mod::lemma_mod_bound(u, loop_x);
}

/// The round-trip law: a layer that scrolls for exactly one wrap
/// period, that is for a time `dt` with `speed * dt == loop_x * SCALE`,
/// returns to the x it started from.
pub proof fn lemma_parallax_periodic(x: int, speed: int, loop_x: int, dt: int)
    requires
        0 < loop_x,
        in_band(x, loop_x),
        0 <= speed,
        0 <= dt,
        speed * dt == loop_x * SCALE,
    ensures
        parallax_step_x(x, speed, loop_x, dt) == x,
{
    let offset = loop_x / 2;
    let u = offset - x;
    assert(scaled_spec(speed, dt) == (loop_x * SCALE) / (SCALE as int));
    vstd::arithmetic::div_mod::lemma_div_by_multiple(loop_x, SCALE as int);
    assert(scaled_spec(speed, dt) == loop_x);
    vstd::arithmetic::div_mod::lemma_mod_add_multiples_vanish(u, loop_x);
    vstd::arithmetic::div_mod::lemma_small_mod(u as nat, loop_x as nat);
}

/// Exact effect of one parallax tick on one store row: a live layer's x
/// scrolls and wraps, its y stands still; every other row is untouched.
pub open spec fn parallax_stepped(e: Entity, f: Entity, dt: int) -> bool {
    if e.alive && e.parallax is Some {
        let p = e.parallax->Some_0;
        &&& f.pos.x == parallax_step_x(e.pos.x as int, p.speed as int, p.loop_x as int, dt)
        &&& f.pos.y == e.pos.y
        &&& f.alive == e.alive
        &&& f.size == e.size
        &&& f.vel == e.vel
        &&& f.gravity == e.gravity
        &&& f.parallax == e.parallax
        &&& f.is_pipe == e.is_pipe
        &&& f.is_game_over_ui == e.is_game_over_ui
        &&& f.offscreen_despawn == e.offscreen_despawn
    } else {
        f == e
    }
}

/// One parallax tick for one store row.
pub fn parallax_step_entity(e: &mut Entity, dt: i64)
    requires
        entity_wf(*old(e)),
        0 <= dt <= DT_LIMIT,
    ensures
        parallax_stepped(*old(e), *final(e), dt as int),
        entity_wf(*final(e)),
{
    if e.alive {
        match e.parallax {
            Some(p) => {
                let offset = p.loop_x / 2;
                let d = scaled(p.speed, dt);
                let u = offset - e.pos.x + d;
                proof {
                    vstd::arithmetic::div_mod::lemma_mod_bound(u as int, p.loop_x as int);
                }
                let m = u % p.loop_x;
                e.pos.x = offset - m;
                proof {
                    lemma_parallax_step_in_band(
                        old(e).pos.x as int,
                        p.speed as int,
                        p.loop_x as int,
                        dt as int,
                    );
                }
            },
            None => {},
        }
    }
}

} // verus!
