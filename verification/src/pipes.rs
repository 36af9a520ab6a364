//! Pipe obstacles: the repeating spawn timer, the shape of a spawned
//! pipe pair, and the random draws that place the gap.
//!
//! A spawn event creates two paired rows that share one randomly drawn
//! gap center and half-gap size: the bottom pipe ends at
//! `gap_y - half_gap`, the top pipe starts at `gap_y + half_gap`, both
//! sit just off the right window edge, scroll left at the global pipe
//! speed, and are tagged for off-screen despawn.

use vstd::prelude::*;

use crate::consts::{
    DT_LIMIT, PIPE_HEIGHT, PIPE_VELOCITY_X, PIPE_WIDTH, TIMER_LIMIT, WINDOW_LIMIT,
};
use crate::entity::{entity_wf, Entity};

verus! {

/// The repeating timer that gates pipe generation.
#[derive(Clone, Copy, Debug, PartialEq, Eq, Structural)]
pub struct SpawnTimer {
    /// Time accumulated since the timer last finished, milliseconds.
    pub elapsed: i64,
    /// The repeat interval, milliseconds.
    pub interval: i64,
}

impl SpawnTimer {
    /// A well-formed timer has accumulated less than one interval.
    pub open spec fn wf(self) -> bool {
        0 <= self.elapsed < self.interval <= TIMER_LIMIT
    }

    /// A fresh repeating timer with the given interval.
    pub fn new(interval: i64) -> (t: SpawnTimer)
        requires
            0 < interval <= TIMER_LIMIT,
        ensures
            t.wf(),
            t.elapsed == 0,
            t.interval == interval,
    {
        SpawnTimer { elapsed: 0, interval }
    }

    /// Advance the timer by `dt` milliseconds. Returns whether the
    /// interval elapsed; the overshoot is kept, so a repeating cadence
    /// drifts by nothing.
    pub fn tick(&mut self, dt: i64) -> (finished: bool)
        requires
            old(self).wf(),
            0 <= dt <= DT_LIMIT,
        ensures
            final(self).wf(),
            final(self).interval == old(self).interval,
            finished == (old(self).elapsed + dt >= old(self).interval),
            final(self).elapsed == (old(self).elapsed + dt) % (old(self).interval as int),
    {
        let total = self.elapsed + dt;
        if total >= self.interval {
            proof {
                vstd::arithmetic::div_mod::lemma_mod_bound(
                    total as int,
                    self.interval as int,
                );
            }
            self.elapsed = total % self.interval;
            true
        } else {
            proof {
                vstd::arithmetic::div_mod::lemma_small_mod(
                    total as nat,
                    self.interval as nat,
                );
            }
            self.elapsed = total;
            false
        }
    }
}

/// X at which both pipes of a pair spawn: just past the right window
/// edge.
pub open spec fn pipe_x(window_w: int) -> int {
    window_w / 2 + PIPE_WIDTH
}

/// Gap center a raw draw yields: the draw spans half the window height
/// and is re-centered on the window's middle.
pub open spec fn gap_center(raw_gap: int, window_h: int) -> int {
    raw_gap - window_h / 4
}

/// Half-gap size a raw draw yields: half the drawn gap size.
pub open spec fn half_gap_of(raw_half: int) -> int {
    raw_half / 2
}

/// Center y of the bottom pipe of a pair: its top edge ends at
/// `gap_y - half_gap`.
pub open spec fn bottom_pipe_y(gap_y: int, half_gap: int) -> int {
    gap_y - PIPE_HEIGHT / 2 - half_gap
}

/// Center y of the top pipe of a pair: its bottom edge starts at
/// `gap_y + half_gap`.
pub open spec fn top_pipe_y(gap_y: int, half_gap: int) -> int {
    gap_y + PIPE_HEIGHT / 2 + half_gap
}

/// Exactly the row a spawn event creates at `(x, y)`: a live pipe of
/// the standard sprite extent, scrolling left at the global pipe speed,
/// tagged for off-screen despawn, with no other component.
pub open spec fn is_pipe_row(e: Entity, x: int, y: int) -> bool {
    &&& e.alive
    &&& e.pos.x == x
    &&& e.pos.y == y
    &&& e.size.x == PIPE_WIDTH
    &&& e.size.y == PIPE_HEIGHT
    &&& e.vel matches Some(v) && v.x == -PIPE_VELOCITY_X && v.y == 0
    &&& e.gravity is None
    &&& e.parallax is None
    &&& e.is_pipe
    &&& !e.is_game_over_ui
    &&& e.offscreen_despawn
}

/// Build the two paired rows of one spawn event; both share the same
/// gap center and half-gap size.
pub fn make_pipe_pair(window_w: i64, gap_y: i64, half_gap: i64) -> (r: (Entity, Entity))
    requires
        0 < window_w <= WINDOW_LIMIT,
        -WINDOW_LIMIT <= gap_y <= WINDOW_LIMIT,
        0 <= half_gap <= WINDOW_LIMIT,
    ensures
        is_pipe_row(r.0, pipe_x(window_w as int), bottom_pipe_y(gap_y as int, half_gap as int)),
        is_pipe_row(r.1, pipe_x(window_w as int), top_pipe_y(gap_y as int, half_gap as int)),
        entity_wf(r.0),
        entity_wf(r.1),
{
    let x = window_w / 2 + PIPE_WIDTH;
    let bottom = Entity {
        alive: true,
        pos: crate::geom::Vec2 { x, y: gap_y - PIPE_HEIGHT / 2 - half_gap },
        size: crate::geom::Vec2 { x: PIPE_WIDTH, y: PIPE_HEIGHT },
        vel: Some(crate::geom::Vec2 { x: -PIPE_VELOCITY_X, y: 0 }),
        gravity: None,
        parallax: None,
        is_pipe: true,
        is_game_over_ui: false,
        offscreen_despawn: true,
    };
    let top = Entity {
        alive: true,
        pos: crate::geom::Vec2 { x, y: gap_y + PIPE_HEIGHT / 2 + half_gap },
        ..bottom
    };
    (bottom, top)
}

/// Relies on `rand::Rng::gen_range` on an `i64` range: the result of a
/// draw lies in `[lo, hi)`; the call panics on an empty range, which
/// the precondition rules out. Nothing more is assumed of the draw.
#[verifier::external_body]
pub(crate) fn gen_range_i64(lo: i64, hi: i64) -> (r: i64)
    requires
        lo < hi,
    ensures
        lo <= r < hi,
{
    rand::Rng::gen_range(&mut rand::thread_rng(), lo..hi)
}

} // verus!
