use space_command::geometry::Vec2;
use space_command::scheduler::SpawnScheduler;
use space_command::scheduler::make_spawn_request;

#[test]
fn no_emission_until_threshold_strictly_crossed() {
    let mut s = SpawnScheduler::new();
    // sixty frames of a shade under one sixtieth of a second: 999,960 us.
    for _ in 0..60 {
        assert!(!s.tick(16_666));
    }
    // the sixty-first frame crosses one second.
    assert!(s.tick(16_666));
    // and the accumulator was reset.
    for _ in 0..60 {
        assert!(!s.tick(16_666));
    }
    assert!(s.tick(16_666));
}

#[test]
fn exactly_one_second_does_not_cross() {
    let mut s = SpawnScheduler::new();
    assert!(!s.tick(1_000_000));
    assert!(s.tick(1_000_000));
}

#[test]
fn one_emission_per_crossing_however_dt_is_chunked() {
    // the same 1.1 simulated seconds, in three chunkings whose partial
    // sums never cross the threshold early.
    let runs: [&[i64]; 3] = [&[1_100_000], &[700_000, 400_000], &[300_000, 400_000, 400_000]];
    for dts in runs {
        let mut s = SpawnScheduler::new();
        let mut emissions = 0;
        for &dt in dts {
            if s.tick(dt) {
                emissions += 1;
            }
        }
        assert_eq!(emissions, 1, "chunking {dts:?}");
    }
}

#[test]
fn large_delta_emits_once_and_resets() {
    let mut s = SpawnScheduler::new();
    // a single huge frame crosses once; the overshoot is discarded.
    assert!(s.tick(5_000_000));
    assert!(!s.tick(900_000));
    assert!(s.tick(200_000));
}

#[test]
fn spawn_request_spans_the_screen_vertically() {
    let req = make_spawn_request(300_000, 700_000, 400_000, 50_000);
    assert_eq!(req.source, Vec2 { x: 300_000, y: 0 });
    assert_eq!(req.target, Vec2 { x: 700_000, y: 400_000 });
}

#[test]
fn straight_down_velocity_has_full_speed() {
    let req = make_spawn_request(250_000, 250_000, 400_000, 50_000);
    assert_eq!(req.velocity, Vec2 { x: 0, y: 50_000 });
}

#[test]
fn diagonal_velocity_follows_a_three_four_five_triangle() {
    // separation (300, 400) units has length 500 units exactly.
    let req = make_spawn_request(0, 300_000, 400_000, 50_000);
    assert_eq!(req.velocity, Vec2 { x: 30_000, y: 40_000 });
}

#[test]
fn leftward_velocity_is_negative() {
    let req = make_spawn_request(300_000, 0, 400_000, 50_000);
    assert_eq!(req.velocity, Vec2 { x: -30_000, y: 40_000 });
}
