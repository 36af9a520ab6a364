//! The entity store and the per-frame passes that run over it.
//!
//! The store owns the player record and a vector of entity rows; a
//! despawned row is marked dead in place, so row indices are stable
//! handles. Each frame the host calls [`World::tick`] once with the
//! elapsed milliseconds, an input snapshot and the window size; the
//! passes run in a fixed order and the game-mode state machine gates
//! which of them do work.

use vstd::prelude::*;

use crate::consts::{
    DESPAWN_MARGIN, DT_LIMIT, FLAP_VELOCITY_Y, GRAVITY_Y, GROUND_HEIGHT, SPAWN_INTERVAL_MS,
    VEL_LIMIT, WINDOW_LIMIT,
};
use crate::entity::{entity_wf, in_band, player_wf, pos_wf, size_wf, Entity, Parallax, Player};
use crate::geom::{collide, collides_spec, Vec2};
use crate::parallax::{parallax_step_entity, parallax_stepped};
use crate::physics::{entity_stepped, player_stepped, step_entity, step_player};
use crate::pipes::{
    bottom_pipe_y, gap_center, half_gap_of, is_pipe_row, pipe_x, top_pipe_y, SpawnTimer,
};
use crate::state::GameMode;

verus! {

/// Current window dimensions, milli-units, as the window collaborator
/// reports them.
#[derive(Clone, Copy, Debug, PartialEq, Eq, Structural)]
pub struct WindowSize {
    pub width: i64,
    pub height: i64,
}

impl WindowSize {
    /// A usable window: positive extents within the world's limits, and
    /// tall enough that a pipe gap can be drawn from it.
    pub open spec fn wf(self) -> bool {
        &&& 0 < self.width <= WINDOW_LIMIT
        &&& 8 <= self.height <= WINDOW_LIMIT
    }
}

/// What the input collaborator saw this frame: a flap-key press edge
/// and a menu-confirm press.
#[derive(Clone, Copy, Debug, PartialEq, Eq, Structural)]
pub struct InputSnapshot {
    pub flap: bool,
    pub menu_confirm: bool,
}

/// What a frame asks of the audio collaborator: whether to play the hit
/// sound.
#[derive(Clone, Copy, Debug, PartialEq, Eq, Structural)]
pub struct TickEvents {
    pub hit: bool,
}

/// The simulation state: game mode, score, the player, the entity rows,
/// the buffered flap intent (a queue of capacity one), and the pipe
/// spawn timer.
pub struct World {
    pub mode: GameMode,
    pub score: u32,
    pub player: Player,
    pub entities: Vec<Entity>,
    pub flap_queued: bool,
    pub spawn_timer: SpawnTimer,
}

/// X at which the player spawns and respawns: a tenth of the window
/// width left of center.
pub open spec fn spawn_pos_x(window_w: int) -> int {
    -(window_w / 10)
}

/// Y of the ground line, for the player's center: at or below it the
/// round is lost.
pub open spec fn floor_y(window_h: int, size_y: int) -> int {
    -(window_h / 2 - size_y / 2 - GROUND_HEIGHT)
}

/// Y of the ceiling, for the player's center: at or above it the player
/// bounces.
pub open spec fn ceiling_y(window_h: int, size_y: int) -> int {
    window_h / 2 - size_y / 2
}

/// Whether a row is due for off-screen cleanup: live, tagged, and a
/// safety margin past either vertical window edge.
pub open spec fn due_despawn(e: Entity, window_w: int) -> bool {
    &&& e.alive
    &&& e.offscreen_despawn
    &&& (e.pos.x < -(window_w / 2) - DESPAWN_MARGIN || e.pos.x > window_w / 2 + DESPAWN_MARGIN)
}

/// Exact effect of the despawn pass on one row: a row due for cleanup
/// is marked dead in place, any other is untouched.
pub open spec fn despawn_stepped(e: Entity, f: Entity, window_w: int) -> bool {
    if due_despawn(e, window_w) {
        f == (Entity { alive: false, ..e })
    } else {
        f == e
    }
}

/// Exact effect of a round restart on one row: live pipes and the
/// game-over message are despawned, every other row persists.
pub open spec fn restart_stepped(e: Entity, f: Entity) -> bool {
    if e.alive && (e.is_pipe || e.is_game_over_ui) {
        f == (Entity { alive: false, ..e })
    } else {
        f == e
    }
}

/// Whether row `i` of `rows` is a live pipe whose box overlaps player
/// `p`'s.
pub open spec fn pipe_overlap_at(p: Player, rows: Seq<Entity>, i: int) -> bool {
    &&& 0 <= i < rows.len()
    &&& rows[i].alive
    &&& rows[i].is_pipe
    &&& collides_spec(p.pos, p.size, rows[i].pos, rows[i].size)
}

/// Whether any live pipe of `rows` overlaps player `p`.
pub open spec fn pipe_overlap(p: Player, rows: Seq<Entity>) -> bool {
    exists|i: int| pipe_overlap_at(p, rows, i)
}

/// The player as the flap pass leaves it: the impulse replaces the
/// vertical velocity exactly when an intent is serviced.
pub open spec fn flap_applied(p: Player, intent: bool) -> Player {
    if intent {
        Player { vel: Vec2 { x: p.vel.x, y: FLAP_VELOCITY_Y }, ..p }
    } else {
        p
    }
}

/// Whether the spawn timer finishes on a tick of `dt` milliseconds.
pub open spec fn spawn_fires(t: SpawnTimer, dt: int) -> bool {
    t.elapsed + dt >= t.interval
}

/// Exact effect of one tick on the spawn timer: the interval persists
/// and the accumulated time advances modulo it.
pub open spec fn timer_ticked(t0: SpawnTimer, t1: SpawnTimer, dt: int) -> bool {
    &&& t1.interval == t0.interval
    &&& t1.elapsed == (t0.elapsed + dt) % (t0.interval as int)
}

/// Exact effect of the pipe generator stage on the rows: when it ran,
/// two paired pipe rows built from one pair of draws within the
/// window-derived ranges are appended; otherwise the rows are
/// untouched.
pub open spec fn spawn_stepped(
    rows0: Seq<Entity>,
    rows1: Seq<Entity>,
    spawned: bool,
    window: Option<WindowSize>,
) -> bool {
    if spawned {
        &&& window is Some
        &&& rows1.len() == rows0.len() + 2
        &&& (forall|i: int| 0 <= i < rows0.len() ==> rows1[i] == rows0[i])
        &&& exists|raw_gap: int, raw_half: int|
            #![trigger gap_center(raw_gap, window->Some_0.height as int), half_gap_of(raw_half)]
            {
                let win = window->Some_0;
                let h = win.height as int;
                let gap_y = gap_center(raw_gap, h);
                let half_gap = half_gap_of(raw_half);
                &&& 0 <= raw_gap < h / 2
                &&& h / 8 <= raw_half < h / 4
                &&& is_pipe_row(
                    rows1[rows0.len() as int],
                    pipe_x(win.width as int),
                    bottom_pipe_y(gap_y, half_gap),
                )
                &&& is_pipe_row(
                    rows1[rows0.len() as int + 1],
                    pipe_x(win.width as int),
                    top_pipe_y(gap_y, half_gap),
                )
            }
    } else {
        rows1 == rows0
    }
}

/// The game-over message row: a bare marker at the origin with no
/// simulated component.
pub open spec fn game_over_row() -> Entity {
    Entity {
        alive: true,
        pos: Vec2 { x: 0, y: 0 },
        size: Vec2 { x: 0, y: 0 },
        vel: None,
        gravity: None,
        parallax: None,
        is_pipe: false,
        is_game_over_ui: true,
        offscreen_despawn: false,
    }
}

/// Exact effect of the frame's closing despawn stage on the rows: with
/// a window, every row is taken through `despawn_stepped`; without one
/// the stage is skipped and the rows are untouched.
pub open spec fn rows_swept(
    rows0: Seq<Entity>,
    rows1: Seq<Entity>,
    window: Option<WindowSize>,
) -> bool {
    match window {
        Some(win) => {
            &&& rows1.len() == rows0.len()
            &&& forall|i: int|
                0 <= i < rows0.len() ==> despawn_stepped(
                    rows0[i],
                    #[trigger] rows1[i],
                    win.width as int,
                )
        },
        None => rows1 == rows0,
    }
}

/// Whether an in-round frame loses to the ground: the window is known
/// and the stepped player sits at or below the ground line.
pub open spec fn ground_lost(mid: Player, window: Option<WindowSize>) -> bool {
    &&& window is Some
    &&& mid.pos.y <= floor_y(window->Some_0.height as int, mid.size.y as int)
}

/// Exact effect of the boundary stage on the stepped player `mid`: it
/// is skipped when a pipe already ended the round or no window is
/// known; otherwise the ground is tested first, then the ceiling, and
/// at most one edge acts.
pub open spec fn boundary_resolved(
    mid: Player,
    p1: Player,
    window: Option<WindowSize>,
    pipe_hit: bool,
) -> bool {
    if pipe_hit || window is None {
        p1 == mid
    } else {
        let win = window->Some_0;
        let floor = floor_y(win.height as int, mid.size.y as int);
        let ceiling = ceiling_y(win.height as int, mid.size.y as int);
        if mid.pos.y <= floor {
            p1 == mid
        } else if mid.pos.y >= ceiling {
            &&& p1.pos.y == ceiling
            &&& p1.pos.x == mid.pos.x
            &&& p1.vel.y == -mid.vel.y
            &&& p1.vel.x == mid.vel.x
            &&& p1.size == mid.size
            &&& p1.gravity == mid.gravity
        } else {
            p1 == mid
        }
    }
}

/// One full running-round frame, spelled out stage by stage. `mid` is
/// the player after the flap and physics passes; `s1`, `s2` and `s3`
/// are the entity rows after the spawn, physics and parallax stages.
pub open spec fn round_stages(
    w0: World,
    w1: World,
    input: InputSnapshot,
    dt: int,
    window: Option<WindowSize>,
    hit: bool,
    mid: Player,
    s1: Seq<Entity>,
    s2: Seq<Entity>,
    s3: Seq<Entity>,
) -> bool {
    let intent = w0.flap_queued || input.flap;
    let spawned = spawn_fires(w0.spawn_timer, dt) && window is Some;
    let pipe_hit = pipe_overlap(mid, s3);
    &&& spawn_stepped(w0.entities@, s1, spawned, window)
    &&& player_stepped(flap_applied(w0.player, intent), mid, dt, true)
    &&& s2.len() == s1.len()
    &&& (forall|i: int| 0 <= i < s1.len() ==> entity_stepped(s1[i], #[trigger] s2[i], dt, true))
    &&& s3.len() == s2.len()
    &&& (forall|i: int| 0 <= i < s2.len() ==> parallax_stepped(s2[i], #[trigger] s3[i], dt))
    &&& hit == (pipe_hit || ground_lost(mid, window))
    &&& boundary_resolved(mid, w1.player, window, pipe_hit)
    &&& rows_swept(
        if hit {
            s3.push(game_over_row())
        } else {
            s3
        },
        w1.entities@,
        window,
    )
    &&& w1.mode == (if hit {
        GameMode::GameOver
    } else {
        GameMode::InGame
    })
    &&& w1.score == w0.score
    &&& !w1.flap_queued
    &&& timer_ticked(w0.spawn_timer, w1.spawn_timer, dt)
}

/// What one frame does while a round is running: for some intermediate
/// player and row states, the stages of `round_stages` connect the
/// world before the frame to the world after it.
pub open spec fn in_round_frame(
    w0: World,
    w1: World,
    input: InputSnapshot,
    dt: int,
    window: Option<WindowSize>,
    hit: bool,
) -> bool {
    exists|mid: Player, s1: Seq<Entity>, s2: Seq<Entity>, s3: Seq<Entity>|
        round_stages(w0, w1, input, dt, window, hit, mid, s1, s2, s3)
}

/// A menu-confirmed restart frame: the round reset runs, then the
/// closing despawn stage. `rows` is the store between the two.
pub open spec fn restart_stages(w0: World, w1: World, win: WindowSize, rows: Seq<Entity>) -> bool {
    &&& w1.mode == GameMode::InGame
    &&& w1.score == 0
    &&& !w1.flap_queued
    &&& w1.player.pos.x == spawn_pos_x(win.width as int)
    &&& w1.player.pos.y == 0
    &&& w1.player.vel == (Vec2 { x: 0, y: 0 })
    &&& w1.player.size == w0.player.size
    &&& w1.player.gravity == w0.player.gravity
    &&& rows.len() == w0.entities@.len()
    &&& (forall|i: int|
        0 <= i < rows.len() ==> restart_stepped(w0.entities@[i], #[trigger] rows[i]))
    &&& rows_swept(rows, w1.entities@, Some(win))
    &&& w1.spawn_timer == w0.spawn_timer
}

/// What one frame does on a menu screen when the confirm key starts (or
/// restarts) a round.
pub open spec fn restart_frame(w0: World, w1: World, win: WindowSize) -> bool {
    exists|rows: Seq<Entity>| restart_stages(w0, w1, win, rows)
}

impl World {
    /// Every record within the world's limits.
    pub open spec fn wf(self) -> bool {
        &&& player_wf(self.player)
        &&& self.spawn_timer.wf()
        &&& forall|i: int|
            0 <= i < self.entities@.len() ==> entity_wf(#[trigger] self.entities@[i])
    }

    /// A fresh world: main menu, score zero, no entity rows, no flap
    /// buffered, and the player at its spawn position under standard
    /// gravity.
    pub fn new(window_w: i64, player_size: Vec2) -> (w: World)
        requires
            0 < window_w <= WINDOW_LIMIT,
            size_wf(player_size),
        ensures
            w.wf(),
            w.mode == GameMode::MainMenu,
            w.score == 0,
            w.player.pos.x == spawn_pos_x(window_w as int),
            w.player.pos.y == 0,
            w.player.vel == (Vec2 { x: 0, y: 0 }),
            w.player.gravity == GRAVITY_Y,
            w.player.size == player_size,
            w.entities@.len() == 0,
            !w.flap_queued,
            w.spawn_timer.elapsed == 0,
            w.spawn_timer.interval == SPAWN_INTERVAL_MS,
    {
        World {
            mode: GameMode::MainMenu,
            score: 0,
            player: Player {
                pos: Vec2 { x: -(window_w / 10), y: 0 },
                size: player_size,
                vel: Vec2 { x: 0, y: 0 },
                gravity: GRAVITY_Y,
            },
            entities: Vec::new(),
            flap_queued: false,
            spawn_timer: SpawnTimer::new(SPAWN_INTERVAL_MS),
        }
    }

    /// Append a background layer that scrolls left at `speed` and wraps
    /// with period `loop_x`; its starting x must already lie in the
    /// layer's wrap band.
    pub fn add_parallax_layer(&mut self, pos: Vec2, size: Vec2, speed: i64, loop_x: i64)
        requires
            old(self).wf(),
            pos_wf(pos),
            size_wf(size),
            0 < loop_x <= crate::consts::LOOP_LIMIT,
            0 <= speed <= VEL_LIMIT,
            in_band(pos.x as int, loop_x as int),
        ensures
            final(self).wf(),
            final(self).entities@.len() == old(self).entities@.len() + 1,
            forall|i: int|
                0 <= i < old(self).entities@.len()
                    ==> final(self).entities@[i] == old(self).entities@[i],
            ({
                let e = final(self).entities@.last();
                &&& e.alive
                &&& e.pos == pos
                &&& e.size == size
                &&& e.vel is None
                &&& e.gravity is None
                &&& e.parallax == Some(Parallax { speed, loop_x })
                &&& !e.is_pipe
                &&& !e.is_game_over_ui
                &&& !e.offscreen_despawn
            }),
            final(self).mode == old(self).mode,
            final(self).score == old(self).score,
            final(self).player == old(self).player,
            final(self).flap_queued == old(self).flap_queued,
            final(self).spawn_timer == old(self).spawn_timer,
    {
        self.entities.push(
            Entity {
                alive: true,
                pos,
                size,
                vel: None,
                gravity: None,
                parallax: Some(Parallax { speed, loop_x }),
                is_pipe: false,
                is_game_over_ui: false,
                offscreen_despawn: false,
            },
        );
    }

    /// The flap pass: consume the buffered flap intent, if there is
    /// one, setting the player's vertical velocity to exactly the flap
    /// impulse; with no intent buffered the world is left untouched, so
    /// running the pass twice flaps at most once.
    pub fn flap_pass(&mut self)
        requires
            old(self).wf(),
        ensures
            final(self).wf(),
            !final(self).flap_queued,
            old(self).flap_queued ==> {
                &&& final(self).player.vel.y == FLAP_VELOCITY_Y
                &&& final(self).player.vel.x == old(self).player.vel.x
                &&& final(self).player.pos == old(self).player.pos
                &&& final(self).player.size == old(self).player.size
                &&& final(self).player.gravity == old(self).player.gravity
            },
            !old(self).flap_queued ==> *final(self) == *old(self),
            final(self).mode == old(self).mode,
            final(self).score == old(self).score,
            final(self).entities == old(self).entities,
            final(self).spawn_timer == old(self).spawn_timer,
    {
        if self.flap_queued {
            self.player.vel.y = FLAP_VELOCITY_Y;
            self.flap_queued = false;
        }
    }

    /// The physics pass: one tick of gravity and movement for the
    /// player and for every live row with a velocity. Gravity pulls
    /// only while a round is running.
    pub fn physics_pass(&mut self, dt: i64)
        requires
            old(self).wf(),
            0 <= dt <= DT_LIMIT,
        ensures
            final(self).wf(),
            player_stepped(
                old(self).player,
                final(self).player,
                dt as int,
                old(self).mode == GameMode::InGame,
            ),
            final(self).entities@.len() == old(self).entities@.len(),
            forall|i: int|
                0 <= i < old(self).entities@.len()
                    ==> entity_stepped(
                    old(self).entities@[i],
                    #[trigger] final(self).entities@[i],
                    dt as int,
                    old(self).mode == GameMode::InGame,
                ),
            final(self).mode == old(self).mode,
            final(self).score == old(self).score,
            final(self).flap_queued == old(self).flap_queued,
            final(self).spawn_timer == old(self).spawn_timer,
    {
        let in_game = self.mode == GameMode::InGame;
        step_player(&mut self.player, dt, in_game);
        let n = self.entities.len();
        let mut i: usize = 0;
        while i < n
            invariant
                0 <= i <= n,
                n == old(self).entities@.len(),
                self.entities@.len() == n,
                0 <= dt <= DT_LIMIT,
                in_game == (old(self).mode == GameMode::InGame),
                forall|j: int|
                    0 <= j < i ==> entity_stepped(
                        old(self).entities@[j],
                        #[trigger] self.entities@[j],
                        dt as int,
                        in_game,
                    ),
                forall|j: int| 0 <= j < i ==> entity_wf(#[trigger] self.entities@[j]),
                forall|j: int| i <= j < n ==> self.entities@[j] == old(self).entities@[j],
                forall|j: int| i <= j < n ==> entity_wf(#[trigger] self.entities@[j]),
                self.mode == old(self).mode,
                self.score == old(self).score,
                player_stepped(old(self).player, self.player, dt as int, in_game),
                player_wf(self.player),
                self.flap_queued == old(self).flap_queued,
                self.spawn_timer == old(self).spawn_timer,
            decreases n - i,
        {
            step_entity(&mut self.entities[i], dt, in_game);
            i = i + 1;
        }
    }

    /// The parallax pass: scroll and wrap every live background layer.
    pub fn parallax_pass(&mut self, dt: i64)
        requires
            old(self).wf(),
            0 <= dt <= DT_LIMIT,
        ensures
            final(self).wf(),
            final(self).entities@.len() == old(self).entities@.len(),
            forall|i: int|
                0 <= i < old(self).entities@.len()
                    ==> parallax_stepped(
                    old(self).entities@[i],
                    #[trigger] final(self).entities@[i],
                    dt as int,
                ),
            final(self).mode == old(self).mode,
            final(self).score == old(self).score,
            final(self).player == old(self).player,
            final(self).flap_queued == old(self).flap_queued,
            final(self).spawn_timer == old(self).spawn_timer,
    {
        let n = self.entities.len();
        let mut i: usize = 0;
        while i < n
            invariant
                0 <= i <= n,
                n == old(self).entities@.len(),
                self.entities@.len() == n,
                0 <= dt <= DT_LIMIT,
                forall|j: int|
                    0 <= j < i ==> parallax_stepped(
                        old(self).entities@[j],
                        #[trigger] self.entities@[j],
                        dt as int,
                    ),
                forall|j: int| 0 <= j < i ==> entity_wf(#[trigger] self.entities@[j]),
                forall|j: int| i <= j < n ==> self.entities@[j] == old(self).entities@[j],
                forall|j: int| i <= j < n ==> entity_wf(#[trigger] self.entities@[j]),
                self.mode == old(self).mode,
                self.score == old(self).score,
                self.player == old(self).player,
                self.flap_queued == old(self).flap_queued,
                self.spawn_timer == old(self).spawn_timer,
            decreases n - i,
        {
            parallax_step_entity(&mut self.entities[i], dt);
            i = i + 1;
        }
    }

    /// Whether row `i` is a live pipe whose box overlaps the player's.
    pub open spec fn player_hits_pipe_at(self, i: int) -> bool {
        pipe_overlap_at(self.player, self.entities@, i)
    }

    /// Whether any live pipe overlaps the player.
    pub open spec fn player_hits_pipe(self) -> bool {
        pipe_overlap(self.player, self.entities@)
    }

    /// Test the player's box against every live pipe's box.
    pub fn player_overlaps_pipe(&self) -> (hit: bool)
        requires
            self.wf(),
        ensures
            hit == self.player_hits_pipe(),
    {
        let n = self.entities.len();
        let mut i: usize = 0;
        while i < n
            invariant
                0 <= i <= n,
                n == self.entities@.len(),
                self.wf(),
                forall|j: int| 0 <= j < i ==> !pipe_overlap_at(self.player, self.entities@, j),
            decreases n - i,
        {
            let e = self.entities[i];
            if e.alive && e.is_pipe
                && collide(self.player.pos, self.player.size, e.pos, e.size) {
                assert(pipe_overlap_at(self.player, self.entities@, i as int));
                return true;
            }
            i = i + 1;
        }
        false
    }

    /// The collision pass: while a round is running, any overlap between
    /// the player and a live pipe ends it, moving the state machine to
    /// game over exactly once; outside a round the pass does nothing.
    /// Returns whether it detected a hit.
    pub fn collision_pass(&mut self) -> (hit: bool)
        requires
            old(self).wf(),
        ensures
            final(self).wf(),
            hit == (old(self).mode == GameMode::InGame && old(self).player_hits_pipe()),
            final(self).mode == (if hit {
                GameMode::GameOver
            } else {
                old(self).mode
            }),
            final(self).score == old(self).score,
            final(self).player == old(self).player,
            final(self).entities == old(self).entities,
            final(self).flap_queued == old(self).flap_queued,
            final(self).spawn_timer == old(self).spawn_timer,
    {
        if !(self.mode == GameMode::InGame) {
            return false;
        }
        let hit = self.player_overlaps_pipe();
        if hit {
            self.mode = GameMode::GameOver;
        }
        hit
    }

    /// The boundary pass: while a round is running, a player at or
    /// below the ground line loses the round; a player at or above the
    /// ceiling bounces, with its vertical velocity reflected and its
    /// position clamped to the ceiling exactly. The ground is tested
    /// first, so at most one edge acts per tick. Returns whether the
    /// ground was hit.
    pub fn boundary_pass(&mut self, window_h: i64) -> (hit: bool)
        requires
            old(self).wf(),
            8 <= window_h <= WINDOW_LIMIT,
        ensures
            final(self).wf(),
            ({
                let floor = floor_y(window_h as int, old(self).player.size.y as int);
                let ceiling = ceiling_y(window_h as int, old(self).player.size.y as int);
                let py = old(self).player.pos.y;
                if old(self).mode != GameMode::InGame {
                    &&& !hit
                    &&& *final(self) == *old(self)
                } else if py <= floor {
                    &&& hit
                    &&& final(self).mode == GameMode::GameOver
                    &&& final(self).player == old(self).player
                } else if py >= ceiling {
                    &&& !hit
                    &&& final(self).mode == old(self).mode
                    &&& final(self).player.pos.y == ceiling
                    &&& final(self).player.pos.x == old(self).player.pos.x
                    &&& final(self).player.vel.y == -old(self).player.vel.y
                    &&& final(self).player.vel.x == old(self).player.vel.x
                    &&& final(self).player.size == old(self).player.size
                    &&& final(self).player.gravity == old(self).player.gravity
                } else {
                    &&& !hit
                    &&& *final(self) == *old(self)
                }
            }),
            final(self).mode == GameMode::GameOver || final(self).mode == old(self).mode,
            final(self).score == old(self).score,
            final(self).entities == old(self).entities,
            final(self).flap_queued == old(self).flap_queued,
            final(self).spawn_timer == old(self).spawn_timer,
    {
        if !(self.mode == GameMode::InGame) {
            return false;
        }
        let half_h = window_h / 2;
        let half_size = self.player.size.y / 2;
        let floor = -(half_h - half_size - GROUND_HEIGHT);
        let ceiling = half_h - half_size;
        if self.player.pos.y <= floor {
            self.mode = GameMode::GameOver;
            true
        } else if self.player.pos.y >= ceiling {
            self.player.pos.y = ceiling;
            self.player.vel.y = -self.player.vel.y;
            false
        } else {
            false
        }
    }

    /// The despawn pass: mark dead every live row that is tagged for
    /// off-screen cleanup and has drifted a safety margin past either
    /// vertical window edge. Runs in every mode.
    pub fn despawn_pass(&mut self, window_w: i64)
        requires
            old(self).wf(),
            0 < window_w <= WINDOW_LIMIT,
        ensures
            final(self).wf(),
            final(self).entities@.len() == old(self).entities@.len(),
            forall|i: int|
                0 <= i < old(self).entities@.len()
                    ==> despawn_stepped(
                    old(self).entities@[i],
                    #[trigger] final(self).entities@[i],
                    window_w as int,
                ),
            final(self).mode == old(self).mode,
            final(self).score == old(self).score,
            final(self).player == old(self).player,
            final(self).flap_queued == old(self).flap_queued,
            final(self).spawn_timer == old(self).spawn_timer,
    {
        let half_w = window_w / 2;
        let n = self.entities.len();
        let mut i: usize = 0;
        while i < n
            invariant
                0 <= i <= n,
                n == old(self).entities@.len(),
                self.entities@.len() == n,
                0 < window_w <= WINDOW_LIMIT,
                half_w == window_w / 2,
                forall|j: int|
                    0 <= j < i ==> despawn_stepped(
                        old(self).entities@[j],
                        #[trigger] self.entities@[j],
                        window_w as int,
                    ),
                forall|j: int| 0 <= j < i ==> entity_wf(#[trigger] self.entities@[j]),
                forall|j: int| i <= j < n ==> self.entities@[j] == old(self).entities@[j],
                forall|j: int| i <= j < n ==> entity_wf(#[trigger] self.entities@[j]),
                self.mode == old(self).mode,
                self.score == old(self).score,
                self.player == old(self).player,
                self.flap_queued == old(self).flap_queued,
                self.spawn_timer == old(self).spawn_timer,
            decreases n - i,
        {
            let e = self.entities[i];
            if e.alive && e.offscreen_despawn
                && (e.pos.x < -half_w - DESPAWN_MARGIN || e.pos.x > half_w + DESPAWN_MARGIN) {
                self.entities[i] = Entity { alive: false, ..e };
            }
            i = i + 1;
        }
    }

    /// The on-enter action of a round: reset the player to its spawn
    /// position and to rest, despawn every live pipe and the game-over
    /// message, clear the score and the buffered flap intent, and enter
    /// the running mode.
    pub fn restart_round(&mut self, window_w: i64)
        requires
            old(self).wf(),
            0 < window_w <= WINDOW_LIMIT,
        ensures
            final(self).wf(),
            final(self).mode == GameMode::InGame,
            final(self).score == 0,
            !final(self).flap_queued,
            final(self).player.pos.x == spawn_pos_x(window_w as int),
            final(self).player.pos.y == 0,
            final(self).player.vel == (Vec2 { x: 0, y: 0 }),
            final(self).player.size == old(self).player.size,
            final(self).player.gravity == old(self).player.gravity,
            final(self).entities@.len() == old(self).entities@.len(),
            forall|i: int|
                0 <= i < old(self).entities@.len()
                    ==> restart_stepped(
                    old(self).entities@[i],
                    #[trigger] final(self).entities@[i],
                ),
            final(self).spawn_timer == old(self).spawn_timer,
    {
        self.player.pos = Vec2 { x: -(window_w / 10), y: 0 };
        self.player.vel = Vec2 { x: 0, y: 0 };
        self.score = 0;
        self.flap_queued = false;
        self.mode = GameMode::InGame;
        let n = self.entities.len();
        let mut i: usize = 0;
        while i < n
            invariant
                0 <= i <= n,
                n == old(self).entities@.len(),
                self.entities@.len() == n,
                forall|j: int|
                    0 <= j < i ==> restart_stepped(
                        old(self).entities@[j],
                        #[trigger] self.entities@[j],
                    ),
                forall|j: int| 0 <= j < i ==> entity_wf(#[trigger] self.entities@[j]),
                forall|j: int| i <= j < n ==> self.entities@[j] == old(self).entities@[j],
                forall|j: int| i <= j < n ==> entity_wf(#[trigger] self.entities@[j]),
                self.mode == GameMode::InGame,
                self.score == 0,
                !self.flap_queued,
                player_wf(self.player),
                self.player.pos.x == spawn_pos_x(window_w as int),
                self.player.pos.y == 0,
                self.player.vel == (Vec2 { x: 0, y: 0 }),
                self.player.size == old(self).player.size,
                self.player.gravity == old(self).player.gravity,
                self.spawn_timer == old(self).spawn_timer,
            decreases n - i,
        {
            let e = self.entities[i];
            if e.alive && (e.is_pipe || e.is_game_over_ui) {
                self.entities[i] = Entity { alive: false, ..e };
            }
            i = i + 1;
        }
    }

    /// The on-enter action of game over: append the game-over message
    /// row, a bare marker at the origin with no simulated component.
    pub fn spawn_game_over_ui(&mut self)
        requires
            old(self).wf(),
        ensures
            final(self).wf(),
            final(self).entities@ == old(self).entities@.push(game_over_row()),
            final(self).mode == old(self).mode,
            final(self).score == old(self).score,
            final(self).player == old(self).player,
            final(self).flap_queued == old(self).flap_queued,
            final(self).spawn_timer == old(self).spawn_timer,
    {
        self.entities.push(
            Entity {
                alive: true,
                pos: Vec2 { x: 0, y: 0 },
                size: Vec2 { x: 0, y: 0 },
                vel: None,
                gravity: None,
                parallax: None,
                is_pipe: false,
                is_game_over_ui: true,
                offscreen_despawn: false,
            },
        );
    }

    /// The pipe generator: draw a raw gap position uniformly across
    /// half the window height and a raw gap size uniformly between an
    /// eighth and a quarter of it, and append the paired rows just off
    /// the right window edge. Both rows of the event share the same
    /// draws: the gap center is the first draw re-centered on the
    /// window's middle, the half-gap size is half the second draw.
    pub fn generate_pipes(&mut self, window: WindowSize)
        requires
            old(self).wf(),
            window.wf(),
        ensures
            final(self).wf(),
            spawn_stepped(old(self).entities@, final(self).entities@, true, Some(window)),
            final(self).mode == old(self).mode,
            final(self).score == old(self).score,
            final(self).player == old(self).player,
            final(self).flap_queued == old(self).flap_queued,
            final(self).spawn_timer == old(self).spawn_timer,
    {
        let h = window.height;
        proof {
            vstd::arithmetic::div_mod::lemma_div_is_ordered(8, h as int, 2);
            vstd::arithmetic::div_mod::lemma_div_is_ordered(8, h as int, 4);
            vstd::arithmetic::div_mod::lemma_div_is_ordered(8, h as int, 8);
            vstd::arithmetic::div_mod::lemma_div_denominator(h as int, 4, 2);
            vstd::arithmetic::div_mod::lemma_div_is_strictly_smaller(h as int / 4, 2);
            vstd::arithmetic::div_mod::lemma_div_nonincreasing(h as int, 2);
            vstd::arithmetic::div_mod::lemma_div_nonincreasing(h as int, 4);
            vstd::arithmetic::div_mod::lemma_div_pos_is_pos(h as int, 4);
        }
        let raw_gap = crate::pipes::gen_range_i64(0, h / 2);
        let gap_y = raw_gap - h / 4;
        let raw_half = crate::pipes::gen_range_i64(h / 8, h / 4);
        proof {
            vstd::arithmetic::div_mod::lemma_div_pos_is_pos(raw_half as int, 2);
            vstd::arithmetic::div_mod::lemma_div_nonincreasing(raw_half as int, 2);
        }
        let half_gap = raw_half / 2;
        let (bottom, top) = crate::pipes::make_pipe_pair(window.width, gap_y, half_gap);
        self.entities.push(bottom);
        self.entities.push(top);
        proof {
            let n = old(self).entities@.len() as int;
            let h_spec = (Some(window))->Some_0.height as int;
            assert(gap_center(raw_gap as int, h_spec) == gap_center(
                raw_gap as int,
                window.height as int,
            ));
            assert(is_pipe_row(
                self.entities@[n],
                pipe_x(window.width as int),
                bottom_pipe_y(gap_center(raw_gap as int, window.height as int), half_gap_of(raw_half as int)),
            ));
            assert(is_pipe_row(
                self.entities@[n + 1],
                pipe_x(window.width as int),
                top_pipe_y(gap_center(raw_gap as int, window.height as int), half_gap_of(raw_half as int)),
            ));
        }
    }

    /// One full frame: run the state machine and, in its current mode,
    /// the passes it gates, in this fixed order — input intake, flap,
    /// pipe generation, physics, parallax, collision, boundary, then
    /// off-screen despawn in every mode. Menu confirmation on a menu
    /// screen restarts a round. A frame whose window dimensions are
    /// unavailable skips the size-dependent work (pipe generation, the
    /// boundary pass, the despawn pass, and the restart) instead of
    /// failing. The returned events tell the host whether to play the
    /// hit sound. The frame relations `in_round_frame` and
    /// `restart_frame` spell the whole effect out stage by stage.
    pub fn tick(&mut self, input: InputSnapshot, dt: i64, window: Option<WindowSize>) -> (ev:
        TickEvents)
        requires
            old(self).wf(),
            0 <= dt <= DT_LIMIT,
            window matches Some(win) ==> win.wf(),
        ensures
            final(self).wf(),
            old(self).mode != GameMode::InGame ==> !ev.hit,
            old(self).mode == GameMode::MainMenu ==> final(self).mode == (
            if input.menu_confirm && window is Some {
                GameMode::InGame
            } else {
                GameMode::MainMenu
            }),
            old(self).mode == GameMode::GameOver ==> final(self).mode == (
            if input.menu_confirm && window is Some {
                GameMode::InGame
            } else {
                GameMode::GameOver
            }),
            old(self).mode == GameMode::InGame ==> {
                &&& final(self).mode == GameMode::InGame || final(self).mode == GameMode::GameOver
                &&& ev.hit == (final(self).mode == GameMode::GameOver)
                &&& !final(self).flap_queued
                &&& in_round_frame(*old(self), *final(self), input, dt as int, window, ev.hit)
            },
            (old(self).mode != GameMode::InGame && input.menu_confirm && window is Some)
                ==> restart_frame(*old(self), *final(self), window->Some_0),
            old(self).mode != GameMode::InGame && !(input.menu_confirm && window is Some) ==> {
                &&& final(self).player == old(self).player
                &&& final(self).score == old(self).score
                &&& final(self).flap_queued == old(self).flap_queued
                &&& final(self).spawn_timer == old(self).spawn_timer
                &&& rows_swept(old(self).entities@, final(self).entities@, window)
            },
    {
        if self.mode == GameMode::InGame {
            if input.flap {
                self.flap_queued = true;
            }
            self.flap_pass();
            let ghost p0 = self.player;
            let spawn_due = self.spawn_timer.tick(dt);
            if spawn_due {
                match window {
                    Some(win) => self.generate_pipes(win),
                    None => {},
                }
            }
            let ghost s1 = self.entities@;
            self.physics_pass(dt);
            let ghost mid = self.player;
            let ghost s2 = self.entities@;
            self.parallax_pass(dt);
            let ghost s3 = self.entities@;
            let pipe_hit = self.collision_pass();
            let ground_hit = match window {
                Some(win) => self.boundary_pass(win.height),
                None => false,
            };
            let hit = pipe_hit || ground_hit;
            if hit {
                self.spawn_game_over_ui();
            }
            let ghost s4 = self.entities@;
            match window {
                Some(win) => self.despawn_pass(win.width),
                None => {},
            }
            proof {
                let w0 = *old(self);
                let intent = w0.flap_queued || input.flap;
                assert(p0 == flap_applied(w0.player, intent));
                let spawned = spawn_fires(w0.spawn_timer, dt as int) && window is Some;
                assert(spawn_stepped(w0.entities@, s1, spawned, window));
                assert(pipe_hit == pipe_overlap(mid, s3));
                assert(s4 == if hit {
                    s3.push(game_over_row())
                } else {
                    s3
                });
                assert(rows_swept(s4, self.entities@, window));
                assert(round_stages(w0, *self, input, dt as int, window, hit, mid, s1, s2, s3));
            }
            TickEvents { hit }
        } else {
            if input.menu_confirm {
                match window {
                    Some(win) => {
                        match crate::state::transition(
                            self.mode,
                            crate::state::GameEvent::MenuConfirm,
                        ) {
                            Some(m) => {
                                self.restart_round(win.width);
                                self.mode = m;
                            },
                            None => {},
                        }
                    },
                    None => {},
                }
            }
            let ghost reset_rows = self.entities@;
            match window {
                Some(win) => self.despawn_pass(win.width),
                None => {},
            }
            proof {
                if input.menu_confirm && window is Some {
                    assert(restart_stages(*old(self), *self, window->Some_0, reset_rows));
                }
            }
            TickEvents { hit: false }
        }
    }
}

} // verus!
