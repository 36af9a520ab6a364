use flappy_core::consts::{FLAP_VELOCITY_Y, GROUND_HEIGHT};
use flappy_core::geom::{collide, Vec2};
use flappy_core::pipes::make_pipe_pair;
use flappy_core::state::{transition, GameEvent, GameMode};
use flappy_core::world::{InputSnapshot, WindowSize, World};

fn player_size() -> Vec2 {
    Vec2 { x: 34_000, y: 24_000 }
}

fn window() -> WindowSize {
    WindowSize { width: 1_280_000, height: 720_000 }
}

fn in_game_world() -> World {
    let mut w = World::new(window().width, player_size());
    w.restart_round(window().width);
    w
}

#[test]
fn parallax_returns_after_one_wrap_period() {
    // A layer with period 1380 units scrolling at 80 u/s wraps after
    // 1380 / 80 s = 17250 ms and must return exactly to its start.
    let mut w = World::new(window().width, player_size());
    w.add_parallax_layer(
        Vec2 { x: 690_000, y: 0 },
        Vec2 { x: 2_760_000, y: 720_000 },
        80_000,
        1_380_000,
    );
    w.parallax_pass(17_250);
    assert_eq!(w.entities[0].pos.x, 690_000);
    // A partial scroll moves the layer left by the travelled distance.
    w.parallax_pass(1_000);
    assert_eq!(w.entities[0].pos.x, 610_000);
}

#[test]
fn parallax_wraps_inside_its_band() {
    let mut w = World::new(window().width, player_size());
    w.add_parallax_layer(
        Vec2 { x: 648_000, y: -248_000 },
        Vec2 { x: 1_296_000, y: 112_000 },
        200_000,
        1_296_000,
    );
    for _ in 0..100 {
        w.parallax_pass(100);
        let x = w.entities[0].pos.x;
        assert!(x > 648_000 - 1_296_000);
        assert!(x <= 648_000);
    }
}

#[test]
fn collide_is_symmetric() {
    let pa = Vec2 { x: 10_000, y: -3_000 };
    let sa = Vec2 { x: 34_000, y: 24_000 };
    let pb = Vec2 { x: 20_000, y: 5_000 };
    let sb = Vec2 { x: 70_000, y: 500_000 };
    assert_eq!(collide(pa, sa, pb, sb), collide(pb, sb, pa, sa));
    let pc = Vec2 { x: 900_000, y: 0 };
    assert_eq!(collide(pa, sa, pc, sb), collide(pc, sb, pa, sa));
    assert!(collide(pa, sa, pb, sb));
    assert!(!collide(pa, sa, pc, sb));
}

#[test]
fn collide_needs_overlap_on_both_axes() {
    let size = Vec2 { x: 20_000, y: 20_000 };
    let at = |x: i64, y: i64| Vec2 { x, y };
    // Overlapping on x alone is no collision, nor touching edges.
    assert!(!collide(at(0, 0), size, at(0, 30_000), size));
    assert!(!collide(at(30_000, 0), size, at(0, 0), size));
    assert!(!collide(at(20_000, 0), size, at(0, 0), size));
    assert!(collide(at(19_999, 0), size, at(0, 0), size));
}

#[test]
fn ceiling_bounce_reflects_velocity_and_clamps_position() {
    // Ceiling for a 24-unit-tall player in a 720-unit-high window sits
    // at 360 - 12 = 348 units; a player exactly there moving up leaves
    // with the same speed downward, still at the ceiling.
    let mut w = in_game_world();
    w.player.pos.y = 348_000;
    w.player.vel.y = 50_000;
    let hit = w.boundary_pass(window().height);
    assert!(!hit);
    assert_eq!(w.player.vel.y, -50_000);
    assert_eq!(w.player.pos.y, 348_000);
    assert_eq!(w.mode, GameMode::InGame);
}

#[test]
fn ground_contact_ends_the_round() {
    let mut w = in_game_world();
    let floor = -(window().height / 2 - player_size().y / 2 - GROUND_HEIGHT);
    w.player.pos.y = floor;
    let hit = w.boundary_pass(window().height);
    assert!(hit);
    assert_eq!(w.mode, GameMode::GameOver);
    // The losing position is left as it was.
    assert_eq!(w.player.pos.y, floor);
}

#[test]
fn collision_moves_to_game_over_exactly_once() {
    // Two pipes overlap the player at once; the pass still takes the
    // game-over edge once and a repeated pass finds nothing to do.
    let mut w = in_game_world();
    let (bottom, top) = make_pipe_pair(window().width, 0, 60_000);
    let mut a = bottom;
    a.pos = w.player.pos;
    let mut b = top;
    b.pos = w.player.pos;
    w.entities.push(a);
    w.entities.push(b);
    let hit = w.collision_pass();
    assert!(hit);
    assert_eq!(w.mode, GameMode::GameOver);
    let again = w.collision_pass();
    assert!(!again);
    assert_eq!(w.mode, GameMode::GameOver);
}

#[test]
fn collision_ignores_dead_and_distant_pipes() {
    let mut w = in_game_world();
    let (bottom, top) = make_pipe_pair(window().width, 0, 60_000);
    let mut dead = bottom;
    dead.pos = w.player.pos;
    dead.alive = false;
    w.entities.push(dead);
    w.entities.push(top);
    assert!(!w.collision_pass());
    assert_eq!(w.mode, GameMode::InGame);
}

#[test]
fn transition_edges_are_closed() {
    assert_eq!(transition(GameMode::MainMenu, GameEvent::MenuConfirm), Some(GameMode::InGame));
    assert_eq!(transition(GameMode::GameOver, GameEvent::MenuConfirm), Some(GameMode::InGame));
    assert_eq!(transition(GameMode::InGame, GameEvent::PlayerHit), Some(GameMode::GameOver));
    assert_eq!(transition(GameMode::MainMenu, GameEvent::PlayerHit), None);
    assert_eq!(transition(GameMode::GameOver, GameEvent::PlayerHit), None);
    assert_eq!(transition(GameMode::InGame, GameEvent::MenuConfirm), None);
}

#[test]
fn menu_confirm_restarts_a_round() {
    let mut w = World::new(window().width, player_size());
    assert_eq!(w.mode, GameMode::MainMenu);
    let ev = w.tick(
        InputSnapshot { flap: false, menu_confirm: true },
        16,
        Some(window()),
    );
    assert!(!ev.hit);
    assert_eq!(w.mode, GameMode::InGame);
    assert_eq!(w.player.pos.x, -(window().width / 10));
    assert_eq!(w.player.pos.y, 0);
}

#[test]
fn restart_clears_pipes_and_game_over_message() {
    let mut w = in_game_world();
    let (bottom, top) = make_pipe_pair(window().width, 0, 60_000);
    let mut a = bottom;
    a.pos = w.player.pos;
    w.entities.push(a);
    w.entities.push(top);
    w.tick(InputSnapshot { flap: false, menu_confirm: false }, 16, Some(window()));
    assert_eq!(w.mode, GameMode::GameOver);
    assert!(w.entities.iter().any(|e| e.alive && e.is_game_over_ui));
    w.tick(InputSnapshot { flap: false, menu_confirm: true }, 16, Some(window()));
    assert_eq!(w.mode, GameMode::InGame);
    assert!(!w.entities.iter().any(|e| e.alive && e.is_pipe));
    assert!(!w.entities.iter().any(|e| e.alive && e.is_game_over_ui));
    assert_eq!(w.score, 0);
}

#[test]
fn full_tick_flap_scenario() {
    let mut w = in_game_world();
    let ev = w.tick(
        InputSnapshot { flap: true, menu_confirm: false },
        100,
        Some(window()),
    );
    assert!(!ev.hit);
    assert_eq!(w.mode, GameMode::InGame);
    // The flap impulse of 300 u/s decays by one 100 ms gravity tick to
    // 200 u/s and carries the player up by 20 units.
    assert_eq!(w.player.vel.y, 200_000);
    assert_eq!(w.player.pos.y, 20_000);
    assert!(w.player.vel.y < FLAP_VELOCITY_Y);
}

#[test]
fn tick_without_window_skips_size_dependent_work() {
    let mut w = World::new(window().width, player_size());
    let ev = w.tick(InputSnapshot { flap: false, menu_confirm: true }, 16, None);
    assert!(!ev.hit);
    // Without window dimensions the restart is deferred.
    assert_eq!(w.mode, GameMode::MainMenu);
}

#[test]
fn zero_delta_tick_changes_nothing() {
    let mut w = in_game_world();
    let pos = w.player.pos;
    let vel = w.player.vel;
    let ev = w.tick(InputSnapshot { flap: false, menu_confirm: false }, 0, Some(window()));
    assert!(!ev.hit);
    assert_eq!(w.player.pos, pos);
    assert_eq!(w.player.vel, vel);
    assert_eq!(w.entities.len(), 0);
}

#[test]
fn despawn_runs_in_every_mode() {
    let mut w = in_game_world();
    w.mode = GameMode::GameOver;
    let (bottom, _top) = make_pipe_pair(window().width, 0, 60_000);
    let mut far = bottom;
    far.pos.x = -(window().width / 2) - 301_000;
    w.entities.push(far);
    w.tick(InputSnapshot { flap: false, menu_confirm: false }, 16, Some(window()));
    assert!(!w.entities[0].alive);
    assert_eq!(w.mode, GameMode::GameOver);
}

#[test]
fn boundary_is_inactive_outside_a_round() {
    let mut w = World::new(window().width, player_size());
    w.player.pos.y = -10_000_000;
    let hit = w.boundary_pass(window().height);
    assert!(!hit);
    assert_eq!(w.mode, GameMode::MainMenu);
    assert_eq!(w.player.pos.y, -10_000_000);
}

#[test]
fn windowless_round_frame_still_runs_physics() {
    // Without window dimensions the size-dependent passes skip, but
    // flap and physics still run and the store stays as it was.
    let mut w = in_game_world();
    let ev = w.tick(InputSnapshot { flap: true, menu_confirm: false }, 100, None);
    assert!(!ev.hit);
    assert_eq!(w.player.vel.y, 200_000);
    assert_eq!(w.player.pos.y, 20_000);
    assert_eq!(w.entities.len(), 0);
}

#[test]
fn pipes_spawn_on_the_timer_during_a_round() {
    // Flap every frame to stay clear of the ground until the 2 s spawn
    // timer fires on the twentieth 100 ms frame.
    let mut w = in_game_world();
    for _ in 0..19 {
        let ev = w.tick(InputSnapshot { flap: true, menu_confirm: false }, 100, Some(window()));
        assert!(!ev.hit);
        assert_eq!(w.entities.len(), 0);
    }
    w.tick(InputSnapshot { flap: true, menu_confirm: false }, 100, Some(window()));
    assert_eq!(w.entities.len(), 2);
    assert!(w.entities[0].is_pipe && w.entities[1].is_pipe);
}
