use space_command::difficulty::Difficulty;
use space_command::geometry::Vec2;
use space_command::projectile::BulletState;
use space_command::session::Command;
use space_command::session::Session;

const SCREEN_W: i64 = 800_000;
const SCREEN_H: i64 = 600_000;

/// A small deterministic generator standing in for the host's randomness.
fn lcg(state: &mut u64) -> u64 {
    *state = state.wrapping_mul(6364136223846793005).wrapping_add(1442695040888963407);
    *state
}

fn draw(state: &mut u64, bound: i64) -> i64 {
    (lcg(state) % (bound as u64)) as i64
}

#[test]
fn session_starts_with_defaults_and_nothing_live() {
    let s = Session::new();
    assert_eq!(s.difficulty, Difficulty::new());
    assert_eq!(s.scheduler.elapsed, 0);
    assert_eq!(s.registry.len(), 0);
}

#[test]
fn commands_drive_the_difficulty_curve() {
    let mut s = Session::new();
    s.command(Command::Escalate);
    assert_eq!(s.difficulty.get_round(), 2);
    assert_eq!(s.difficulty.get_missile_speed(), 51_100);
    s.command(Command::Escalate);
    s.command(Command::Reset);
    assert_eq!(s.difficulty, Difficulty::new());
    assert_eq!(s.registry.len(), 0);
}

#[test]
fn spawned_projectile_is_stepped_in_its_first_tick() {
    let mut s = Session::new();
    s.tick(600_000, 0, 300_000, 300_000, SCREEN_H);
    assert_eq!(s.registry.len(), 0);
    // the second frame crosses one accumulated second and spawns.
    s.tick(600_000, 600, 300_000, 300_000, SCREEN_H);
    assert_eq!(s.registry.len(), 1);
    let b = *s.registry.get(0);
    assert_eq!(b.source, Vec2 { x: 300_000, y: 0 });
    assert_eq!(b.target, Vec2 { x: 300_000, y: SCREEN_H });
    // straight down at the default 50 units per second, already moved
    // by this frame's 0.6 s.
    assert_eq!(b.velocity, Vec2 { x: 0, y: 50_000 });
    assert_eq!(b.position, Vec2 { x: 300_000, y: 30_000 });
    assert_eq!(b.state, BulletState::Traveling);
}

#[test]
fn no_spawn_while_below_the_threshold() {
    let mut s = Session::new();
    for i in 0..60 {
        s.tick(16_666, i, 100_000, 200_000, SCREEN_H);
    }
    assert_eq!(s.registry.len(), 0);
    s.tick(16_666, 61, 100_000, 200_000, SCREEN_H);
    assert_eq!(s.registry.len(), 1);
}

#[test]
fn identical_seeds_give_bit_identical_position_sequences() {
    let mut traces: Vec<Vec<(i64, i64)>> = Vec::new();
    for _ in 0..2 {
        let mut s = Session::new();
        let mut rng: u64 = 0x5eed;
        let mut now: i64 = 0;
        let mut trace: Vec<(i64, i64)> = Vec::new();
        for _ in 0..400 {
            now += 16_666;
            let sx = draw(&mut rng, SCREEN_H);
            let tx = draw(&mut rng, SCREEN_W);
            s.tick(16_666, now, sx, tx, SCREEN_H);
            for i in 0..s.registry.len() {
                let b = s.registry.get(i);
                trace.push((b.position.x, b.position.y));
            }
        }
        assert!(!trace.is_empty());
        traces.push(trace);
    }
    assert_eq!(traces[0], traces[1]);
}
