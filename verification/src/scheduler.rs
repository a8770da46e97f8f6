//! Spawn scheduling: a per-frame accumulator of elapsed time that asks for
//! one new projectile each time a fixed one-second threshold is strictly
//! crossed, and the construction of the spawn request itself.

use vstd::prelude::*;
use crate::geometry::Vec2;
use crate::geometry::MAX_COORD;
use crate::geometry::isqrt_spec;
use crate::geometry::make_velocity;
use crate::geometry::sq_len;
use crate::geometry::vel_component;

verus! {

/// The fixed spawn threshold: one simulated second, in microseconds. The
/// difficulty curve's configured spawn interval is tracked elsewhere but is
/// not consulted by this comparison.
pub const SPAWN_THRESHOLD: i64 = 1_000_000;

/// What a threshold crossing asks the registry to create.
#[derive(Clone, Copy, Debug, PartialEq, Eq, Structural)]
pub struct SpawnRequest {
    pub source: Vec2,
    pub target: Vec2,
    pub velocity: Vec2,
}

/// Accumulates per-frame elapsed time and reports threshold crossings.
#[derive(Clone, Copy, Debug, PartialEq, Eq, Structural)]
pub struct SpawnScheduler {
    pub elapsed: i64,
}

impl SpawnScheduler {
    /// The accumulator never holds more than one threshold's worth.
    pub open spec fn wf(self) -> bool {
        0 <= self.elapsed <= SPAWN_THRESHOLD
    }

    /// Whether adding `dt` strictly crosses the threshold.
    pub open spec fn crosses(self, dt: int) -> bool {
        self.elapsed + dt > SPAWN_THRESHOLD
    }

    /// The accumulator after a tick of `dt`: reset to zero on a crossing,
    /// otherwise grown by `dt`.
    pub open spec fn next_elapsed(self, dt: int) -> int {
        if self.crosses(dt) {
            0
        } else {
            self.elapsed + dt
        }
    }

    /// The whole scheduler one tick ahead.
    pub open spec fn after(self, dt: int) -> SpawnScheduler
        recommends
            self.wf(),
            dt >= 0,
    {
        SpawnScheduler { elapsed: self.next_elapsed(dt) as i64 }
    }

    pub fn new() -> (s: Self)
        ensures
            s.elapsed == 0,
            s.wf(),
    {
        SpawnScheduler { elapsed: 0 }
    }

    /// Adds `dt` microseconds of elapsed time. Reports whether a spawn is
    /// due — exactly when the accumulated time strictly exceeds the
    /// threshold — and resets the accumulator when it is.
    pub fn tick(&mut self, dt: i64) -> (emit: bool)
        requires
            0 <= dt <= i64::MAX - SPAWN_THRESHOLD,
            old(self).wf(),
        ensures
            emit == old(self).crosses(dt as int),
            *final(self) == old(self).after(dt as int),
            final(self).wf(),
    {
        self.elapsed = self.elapsed + dt;
        if self.elapsed > SPAWN_THRESHOLD {
            self.elapsed = 0;
            true
        } else {
            false
        }
    }
}

/// The request a crossing emits, as a value: the source on the top edge at
/// abscissa `source_x`, the target on the bottom edge at abscissa
/// `target_x`, and the velocity pointing from source to target with
/// magnitude `speed`, each axis truncated toward zero.
pub open spec fn spawn_request_spec(
    source_x: i64,
    target_x: i64,
    screen_height: i64,
    speed: i64,
) -> SpawnRequest {
    let source = Vec2 { x: source_x, y: 0 };
    let target = Vec2 { x: target_x, y: screen_height };
    let len = isqrt_spec(sq_len(source, target));
    SpawnRequest {
        source,
        target,
        velocity: Vec2 {
            x: vel_component(target.x as int - source.x as int, speed as int, len) as i64,
            y: vel_component(target.y as int - source.y as int, speed as int, len) as i64,
        },
    }
}

/// Builds the request a crossing emits. The source's abscissa is drawn by
/// the caller from the vertical screen extent, while the target's is drawn
/// from the horizontal one — an asymmetry the session has always had.
pub fn make_spawn_request(source_x: i64, target_x: i64, screen_height: i64, speed: i64) -> (req:
    SpawnRequest)
    requires
        0 <= source_x <= MAX_COORD,
        0 <= target_x <= MAX_COORD,
        0 < screen_height <= MAX_COORD,
        speed >= 0,
    ensures
        req == spawn_request_spec(source_x, target_x, screen_height, speed),
{
    let source = Vec2 { x: source_x, y: 0 };
    let target = Vec2 { x: target_x, y: screen_height };
    let velocity = make_velocity(source, target, speed);
    SpawnRequest { source, target, velocity }
}

/// Chunking invariance of the scheduler, one frame at a time: a delta
/// split into two parts drives the accumulator to the same state and the
/// same emission as the undivided delta, provided the first part does not
/// itself cross the threshold.
pub proof fn lemma_tick_chunking(s: SpawnScheduler, dt1: int, dt2: int)
    requires
        s.wf(),
        0 <= dt1,
        0 <= dt2,
        s.elapsed + dt1 <= SPAWN_THRESHOLD,
    ensures
        !s.crosses(dt1),
        s.after(dt1).crosses(dt2) == s.crosses(dt1 + dt2),
        s.after(dt1).after(dt2) == s.after(dt1 + dt2),
{
}

/// The scheduler driven through a whole sequence of frame deltas.
pub open spec fn run(s: SpawnScheduler, dts: Seq<int>) -> SpawnScheduler
    decreases dts.len(),
{
    if dts.len() == 0 {
        s
    } else {
        run(s.after(dts[0]), dts.drop_first())
    }
}

/// How many spawns a sequence of frame deltas emits.
pub open spec fn emissions(s: SpawnScheduler, dts: Seq<int>) -> nat
    decreases dts.len(),
{
    if dts.len() == 0 {
        0
    } else {
        (if s.crosses(dts[0]) {
            1nat
        } else {
            0nat
        }) + emissions(s.after(dts[0]), dts.drop_first())
    }
}

/// Every delta non-negative and small enough for the accumulator's sum.
pub open spec fn valid_dts(dts: Seq<int>) -> bool {
    forall|k: int| 0 <= k < dts.len() ==> 0 <= #[trigger] dts[k] <= i64::MAX - SPAWN_THRESHOLD
}

/// A run splits at any point: feeding two sequences back to back is
/// feeding their concatenation, for the final state and for the emission
/// count alike.
pub proof fn lemma_run_concat(s: SpawnScheduler, a: Seq<int>, b: Seq<int>)
    ensures
        run(s, a + b) == run(run(s, a), b),
        emissions(s, a + b) == emissions(s, a) + emissions(run(s, a), b),
    decreases a.len(),
{
    if a.len() == 0 {
        assert(a + b =~= b);
    } else {
        assert((a + b)[0] == a[0]);
        assert((a + b).drop_first() =~= a.drop_first() + b);
        lemma_run_concat(s.after(a[0]), a.drop_first(), b);
    }
}

/// A well-formed accumulator stays well formed along any valid run.
pub proof fn lemma_run_wf(s: SpawnScheduler, dts: Seq<int>)
    requires
        s.wf(),
        valid_dts(dts),
    ensures
        run(s, dts).wf(),
    decreases dts.len(),
{
    if dts.len() > 0 {
        assert(valid_dts(dts.drop_first()));
        lemma_run_wf(s.after(dts[0]), dts.drop_first());
    }
}

/// Chunking invariance over a whole run: splitting any one frame delta in
/// two changes neither the final accumulator nor the number of spawns
/// emitted, as long as the first part does not itself cross the threshold.
/// One emission per strictly crossed second is thus independent of how the
/// elapsed time is chunked, short of a chunk that crosses on its own.
pub proof fn lemma_run_chunking(
    s: SpawnScheduler,
    pre: Seq<int>,
    d1: int,
    d2: int,
    post: Seq<int>,
)
    requires
        s.wf(),
        valid_dts(pre),
        0 <= d1,
        0 <= d2,
        run(s, pre).elapsed + d1 <= SPAWN_THRESHOLD,
    ensures
        run(s, pre + seq![d1 + d2] + post) == run(s, pre + seq![d1, d2] + post),
        emissions(s, pre + seq![d1 + d2] + post) == emissions(s, pre + seq![d1, d2] + post),
{
    let m = run(s, pre);
    lemma_run_wf(s, pre);
    lemma_tick_chunking(m, d1, d2);
    let merged = seq![d1 + d2];
    let split = seq![d1, d2];
    assert(merged.drop_first() =~= Seq::<int>::empty());
    assert(split.drop_first() =~= seq![d2]);
    assert(seq![d2].drop_first() =~= Seq::<int>::empty());
    assert(merged[0] == d1 + d2);
    assert(run(m, merged) == run(m.after(d1 + d2), merged.drop_first()));
    assert(run(m.after(d1 + d2), Seq::<int>::empty()) == m.after(d1 + d2));
    assert(run(m, merged) == m.after(d1 + d2));
    assert(split[0] == d1 && split[1] == d2);
    assert(run(m, split) == run(m.after(d1), split.drop_first()));
    assert(run(m.after(d1), seq![d2]) == run(m.after(d1).after(d2), seq![d2].drop_first()));
    assert(run(m.after(d1).after(d2), Seq::<int>::empty()) == m.after(d1).after(d2));
    assert(run(m, split) == m.after(d1).after(d2));
    assert(emissions(m.after(d1 + d2), Seq::<int>::empty()) == 0);
    assert(emissions(m, merged) == (if m.crosses(d1 + d2) {
        1nat
    } else {
        0nat
    }) + emissions(m.after(d1 + d2), merged.drop_first()));
    assert(emissions(m.after(d1).after(d2), Seq::<int>::empty()) == 0);
    assert(emissions(m.after(d1), seq![d2]) == (if m.after(d1).crosses(d2) {
        1nat
    } else {
        0nat
    }) + emissions(m.after(d1).after(d2), seq![d2].drop_first()));
    assert(!m.crosses(d1));
    assert(emissions(m, split) == emissions(m.after(d1), split.drop_first()));
    assert(emissions(m, merged) == emissions(m, split));
    lemma_run_concat(s, pre, merged);
    lemma_run_concat(s, pre, split);
    lemma_run_concat(s, pre + merged, post);
    lemma_run_concat(s, pre + split, post);
    assert(run(s, pre + merged) == run(s, pre + split));
    assert(emissions(s, pre + merged) == emissions(s, pre + split));
    assert(pre + merged + post =~= (pre + merged) + post);
    assert(pre + split + post =~= (pre + split) + post);
}

} // verus!
