use space_command::geometry::Vec2;
use space_command::projectile::Bullet;
use space_command::projectile::BulletState;
use space_command::registry::ProjectileRegistry;

fn v(x: i64, y: i64) -> Vec2 {
    Vec2 { x, y }
}

#[test]
fn tick_moves_traveling_projectiles() {
    let mut r = ProjectileRegistry::new();
    assert_eq!(r.len(), 0);
    r.add(Bullet::new(v(0, 0), v(0, 100_000), v(0, 50_000)));
    r.step(1_000_000, 0);
    assert_eq!(r.len(), 1);
    assert_eq!(r.get(0).position, v(0, 50_000));
    assert_eq!(r.get(0).state, BulletState::Traveling);
}

#[test]
fn arrival_detonates_with_fixed_parameters() {
    let mut r = ProjectileRegistry::new();
    // 1 unit above the target, falling at 50 units per second.
    r.add(Bullet::new(v(0, 99_000), v(0, 100_000), v(0, 50_000)));
    r.step(100_000, 777); // 0.1 s: falls 5 units to y = 104,000, 4 from target
    assert_eq!(r.len(), 1);
    let b = *r.get(0);
    assert_eq!(b.state, BulletState::Exploding);
    let e = b.explosion.expect("explosion attached on arrival");
    assert_eq!(e.position, v(0, 104_000));
    assert_eq!(e.spawn_time, 777);
    assert_eq!(e.size, 50_000);
    assert_eq!(e.duration, 1_000_000);
    assert!(!e.flash);
}

#[test]
fn exploding_projectile_is_gone_after_one_more_tick() {
    let mut r = ProjectileRegistry::new();
    r.add(Bullet::new(v(0, 99_000), v(0, 100_000), v(0, 50_000)));
    r.step(100_000, 0);
    assert_eq!(r.get(0).state, BulletState::Exploding);
    // the explosion was visible for exactly that one snapshot.
    r.step(16_666, 1);
    assert_eq!(r.len(), 0);
}

#[test]
fn pruning_leaves_other_projectiles_alone() {
    let mut r = ProjectileRegistry::new();
    r.add(Bullet::new(v(0, 99_000), v(0, 100_000), v(0, 50_000)));
    r.add(Bullet::new(v(500_000, 0), v(500_000, 100_000), v(0, 50_000)));
    r.step(100_000, 0);
    assert_eq!(r.len(), 2);
    assert_eq!(r.get(0).state, BulletState::Exploding);
    assert_eq!(r.get(1).state, BulletState::Traveling);
    r.step(100_000, 1);
    assert_eq!(r.len(), 1);
    assert_eq!(r.get(0).position, v(500_000, 10_000));
    assert_eq!(r.get(0).state, BulletState::Traveling);
}

#[test]
fn insertion_order_is_kept() {
    let mut r = ProjectileRegistry::new();
    r.add(Bullet::new(v(1000, 0), v(1000, 100_000), v(0, 1000)));
    r.add(Bullet::new(v(2000, 0), v(2000, 100_000), v(0, 1000)));
    r.add(Bullet::new(v(3000, 0), v(3000, 100_000), v(0, 1000)));
    r.step(16_666, 0);
    assert_eq!(r.len(), 3);
    assert_eq!(r.get(0).source.x, 1000);
    assert_eq!(r.get(1).source.x, 2000);
    assert_eq!(r.get(2).source.x, 3000);
}

#[test]
fn zero_dt_still_runs_the_lifecycle_phases() {
    let mut r = ProjectileRegistry::new();
    // already within the arrival radius: a zero-length tick detonates it.
    r.add(Bullet::new(v(0, 96_000), v(0, 100_000), v(0, 50_000)));
    r.step(0, 5);
    assert_eq!(r.len(), 1);
    assert_eq!(r.get(0).state, BulletState::Exploding);
    assert_eq!(r.get(0).position, v(0, 96_000));
    r.step(0, 6);
    assert_eq!(r.len(), 0);
}
