use space_command::geometry::Vec2;
use space_command::projectile::Bullet;
use space_command::projectile::BulletState;

fn v(x: i64, y: i64) -> Vec2 {
    Vec2 { x, y }
}

#[test]
fn new_bullet_starts_traveling_at_source() {
    let b = Bullet::new(v(1000, 2000), v(5000, 6000), v(10, 20));
    assert_eq!(b.source, v(1000, 2000));
    assert_eq!(b.position, v(1000, 2000));
    assert_eq!(b.target, v(5000, 6000));
    assert_eq!(b.velocity, v(10, 20));
    assert_eq!(b.state, BulletState::Traveling);
    assert!(b.explosion.is_none());
}

#[test]
fn step_integrates_velocity_over_time() {
    let mut b = Bullet::new(v(0, 0), v(0, 100_000), v(0, 50_000));
    b.step(1_000_000); // one second
    assert_eq!(b.position, v(0, 50_000));
    b.step(500_000); // half a second more
    assert_eq!(b.position, v(0, 75_000));
}

#[test]
fn step_truncates_toward_zero() {
    let mut b = Bullet::new(v(0, 0), v(0, 100_000), v(-50_000, 50_000));
    b.step(16_666); // one sixtieth of a second, a shade under
    // 50_000 * 16_666 / 1_000_000 = 833.3, truncated toward zero both ways
    assert_eq!(b.position, v(-833, 833));
}

#[test]
fn step_with_zero_dt_is_a_no_op() {
    let mut b = Bullet::new(v(7, 8), v(0, 100_000), v(100, 100));
    b.step(0);
    assert_eq!(b.position, v(7, 8));
}

#[test]
fn step_saturates_at_the_rails() {
    let mut b = Bullet::new(v(0, 1), v(0, 100_000), v(0, i64::MAX));
    b.step(1_000_000);
    assert_eq!(b.position.y, i64::MAX);
}

#[test]
fn arrival_is_strictly_inside_five_units() {
    // 4999 milli-units away: 4999^2 < 5000^2, arrived.
    let mut b = Bullet::new(v(0, 95_001), v(0, 100_000), v(0, 50_000));
    assert!(b.at_target());
    // exactly 5000 milli-units away: not strictly inside.
    b = Bullet::new(v(0, 95_000), v(0, 100_000), v(0, 50_000));
    assert!(!b.at_target());
    b.step(0);
    assert!(!b.at_target());
}

#[test]
fn arrival_uses_both_axes() {
    // 3-4-5 triangle scaled: 3000^2 + 3999^2 < 5000^2.
    let b = Bullet::new(v(3000, 3999), v(0, 0), v(0, 0));
    assert!(b.at_target());
    // 3000^2 + 4000^2 == 5000^2 exactly: not strictly inside.
    let b = Bullet::new(v(3000, 4000), v(0, 0), v(0, 0));
    assert!(!b.at_target());
}

#[test]
fn explode_attaches_one_record_and_freezes_position() {
    let mut b = Bullet::new(v(0, 0), v(0, 100_000), v(0, 50_000));
    b.step(1_000_000);
    assert_eq!(b.get_explosion_spawn_time(), 0);
    b.explode(0xff00_00ff, 50_000, 1_000_000, false, 42_000);
    assert_eq!(b.state, BulletState::Exploding);
    let e = b.explosion.expect("record attached");
    assert_eq!(e.position, v(0, 50_000));
    assert_eq!(e.spawn_time, 42_000);
    assert_eq!(e.size, 50_000);
    assert_eq!(e.duration, 1_000_000);
    assert!(!e.flash);
    assert_eq!(e.get_spawn_time(), 42_000);
    assert_eq!(b.get_explosion_spawn_time(), 42_000);
}

#[test]
fn second_explode_is_a_no_op() {
    let mut b = Bullet::new(v(10, 20), v(0, 100_000), v(0, 50_000));
    b.explode(0xff00_00ff, 50_000, 1_000_000, false, 1000);
    let first = b;
    b.explode(0x00ff_00ff, 99_000, 2_000_000, true, 2000);
    assert_eq!(b, first);
    assert_eq!(b.get_explosion_spawn_time(), 1000);
    // exploded projectiles do not detonate again either
    b.finish_explosion();
    let done = b;
    b.explode(0x00ff_00ff, 99_000, 2_000_000, true, 3000);
    assert_eq!(b, done);
}

#[test]
fn states_only_move_forward() {
    let mut b = Bullet::new(v(0, 0), v(0, 100_000), v(0, 50_000));
    b.finish_explosion(); // no-op while Traveling
    assert_eq!(b.state, BulletState::Traveling);
    b.explode(0xff00_00ff, 50_000, 1_000_000, false, 0);
    assert_eq!(b.state, BulletState::Exploding);
    let frozen = b.position;
    b.step(1_000_000); // no movement past Traveling
    assert_eq!(b.position, frozen);
    b.finish_explosion();
    assert_eq!(b.state, BulletState::Exploded);
    b.finish_explosion(); // terminal
    assert_eq!(b.state, BulletState::Exploded);
}

#[test]
fn straight_drop_arrives_just_before_two_seconds() {
    // 100 units straight down at 50 units per second, stepped at one
    // sixtieth of a second: the five-unit arrival radius opens at 95
    // units, so arrival falls after t = 1.9 s and before t = 2.0 s.
    let mut b = Bullet::new(v(0, 0), v(0, 100_000), v(0, 50_000));
    let dt = 16_666i64; // microseconds per tick
    let mut ticks = 0i64;
    while !b.at_target() {
        b.step(dt);
        ticks += 1;
        assert!(ticks <= 130, "projectile never arrived");
    }
    let arrival_us = ticks * dt;
    assert!(arrival_us > 1_899_000, "arrived before 1.9 s: {arrival_us}");
    assert!(arrival_us <= 2_000_000 + dt, "arrived after 2.0 s (+1 tick): {arrival_us}");
    assert_eq!(ticks, 115);
}
