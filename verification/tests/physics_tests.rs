use flappy_core::consts::{FLAP_VELOCITY_Y, GRAVITY_Y, MAX_VELOCITY_Y};
use flappy_core::geom::Vec2;
use flappy_core::world::World;

fn in_game_world() -> World {
    let mut w = World::new(720_000, Vec2 { x: 34_000, y: 24_000 });
    w.restart_round(720_000);
    w
}

#[test]
fn new_world_starts_at_spawn() {
    let w = World::new(720_000, Vec2 { x: 34_000, y: 24_000 });
    assert_eq!(w.player.pos.x, -72_000);
    assert_eq!(w.player.pos.y, 0);
    assert_eq!(w.player.vel, Vec2 { x: 0, y: 0 });
    assert_eq!(w.player.gravity, GRAVITY_Y);
    assert_eq!(w.score, 0);
    assert_eq!(w.entities.len(), 0);
    assert!(!w.flap_queued);
}

#[test]
fn flap_then_physics_tick_gives_expected_numbers() {
    // One flap intent, then one tick of 100 ms under gravity 1000 u/s^2
    // with a flap impulse of 300 u/s: the flap sets the velocity, the
    // gravity decrement follows, and the position integrates with the
    // updated velocity, landing at 200 u/s and 20 u.
    let mut w = in_game_world();
    w.flap_queued = true;
    w.flap_pass();
    assert_eq!(w.player.vel.y, FLAP_VELOCITY_Y);
    w.physics_pass(100);
    assert_eq!(w.player.vel.y, 200_000);
    assert_eq!(w.player.pos.y, 20_000);
}

#[test]
fn flap_marker_is_consumed_exactly_once() {
    let mut w = in_game_world();
    w.flap_queued = true;
    w.flap_pass();
    assert!(!w.flap_queued);
    assert_eq!(w.player.vel.y, FLAP_VELOCITY_Y);
    // With no intent buffered, the pass leaves velocity untouched.
    w.player.vel.y = 123;
    w.flap_pass();
    assert_eq!(w.player.vel.y, 123);
}

#[test]
fn falling_velocity_is_monotone_and_clamped() {
    let mut w = in_game_world();
    let mut last = w.player.vel.y;
    for _ in 0..100 {
        w.physics_pass(100);
        let vy = w.player.vel.y;
        assert!(vy <= last);
        assert!(vy >= -MAX_VELOCITY_Y);
        last = vy;
    }
    // 100 ticks of 100 ms at 1000 u/s^2 is far past terminal velocity.
    assert_eq!(last, -MAX_VELOCITY_Y);
}

#[test]
fn gravity_only_pulls_while_a_round_runs() {
    let mut w = World::new(720_000, Vec2 { x: 34_000, y: 24_000 });
    assert!(!matches!(w.mode, flappy_core::state::GameMode::InGame));
    w.physics_pass(100);
    assert_eq!(w.player.vel.y, 0);
    assert_eq!(w.player.pos.y, 0);
}

#[test]
fn physics_moves_entities_with_velocity() {
    let mut w = in_game_world();
    let (bottom, top) = flappy_core::pipes::make_pipe_pair(720_000, 0, 100_000);
    w.entities.push(bottom);
    w.entities.push(top);
    w.physics_pass(1000);
    // Pipes scroll left at 250 u/s: one second moves them 250 u.
    assert_eq!(w.entities[0].pos.x, 430_000 - 250_000);
    assert_eq!(w.entities[1].pos.x, 430_000 - 250_000);
    assert_eq!(w.entities[0].pos.y, -350_000);
    assert_eq!(w.entities[1].pos.y, 350_000);
}
