use flappy_core::consts::POS_LIMIT;
use flappy_core::geom::{advance, clamp_i64, scaled};

#[test]
fn advance_integrates_the_scaled_velocity() {
    assert_eq!(advance(0, 200_000, 100), 20_000);
    assert_eq!(advance(5_000, -250_000, 100), 5_000 - 25_000);
    assert_eq!(advance(7, 0, 60_000), 7);
}

#[test]
fn scaling_truncates_toward_zero_symmetrically() {
    // A sub-milli-unit distance vanishes alike in both directions.
    assert_eq!(scaled(1, 999), 0);
    assert_eq!(scaled(-1, 999), 0);
    assert_eq!(scaled(1_500, 999), 1_498);
    assert_eq!(scaled(-1_500, 999), -1_498);
}

#[test]
fn advance_saturates_at_the_world_bound() {
    assert_eq!(advance(POS_LIMIT, 1_000_000_000, 60_000), POS_LIMIT);
    assert_eq!(advance(-POS_LIMIT, -1_000_000_000, 60_000), -POS_LIMIT);
    assert_eq!(advance(POS_LIMIT - 10, 1_000_000, 1_000), POS_LIMIT);
}

#[test]
fn clamp_picks_the_nearest_bound() {
    assert_eq!(clamp_i64(5, 0, 10), 5);
    assert_eq!(clamp_i64(-5, 0, 10), 0);
    assert_eq!(clamp_i64(15, 0, 10), 10);
    assert_eq!(clamp_i64(0, 0, 0), 0);
}
