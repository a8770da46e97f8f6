//! The ordered collection of live projectiles and the per-tick pass over
//! it: integrate positions, close the one-tick explosion windows, prune,
//! detonate arrivals, prune again.

use vstd::prelude::*;
use crate::projectile::Bullet;
use crate::projectile::BulletState;
use crate::projectile::RED;

verus! {

/// Detonation radius used by the arrival pass: fifty world units in
/// milli-units. A fixed constant — the difficulty curve's explosion size is
/// not consulted here.
pub const DETONATION_SIZE: i64 = 50_000;

/// Detonation duration stored on the record: one second in microseconds.
/// The explosion window itself always lasts exactly one tick.
pub const DETONATION_DURATION: i64 = 1_000_000;

/// The first two phases of a tick for one projectile: integrate while
/// Traveling, then close an open explosion window.
pub open spec fn step_finalize(b: Bullet, dt: int) -> Bullet
    recommends
        dt >= 0,
{
    b.stepped(dt).finalized()
}

/// Whether a projectile survives a pruning pass.
pub open spec fn live(b: Bullet) -> bool {
    b.state != BulletState::Exploded
}

/// The arrival phase for one projectile: one within the arrival radius of
/// its target detonates with the fixed parameters, red, fifty units, one
/// second, no flash.
pub open spec fn detonated(b: Bullet, now: i64) -> Bullet {
    if b.at_target_spec() {
        b.explode_spec(RED, DETONATION_SIZE, DETONATION_DURATION, false, now)
    } else {
        b
    }
}

/// Phases one to three of a tick over the whole collection, in order:
/// every projectile is integrated and has its explosion window closed, and
/// the Exploded ones are dropped.
pub open spec fn survivors_of(s: Seq<Bullet>, dt: int) -> Seq<Bullet>
    recommends
        dt >= 0,
    decreases s.len(),
{
    if s.len() == 0 {
        Seq::empty()
    } else {
        let prev = survivors_of(s.drop_last(), dt);
        let b = step_finalize(s.last(), dt);
        if live(b) {
            prev.push(b)
        } else {
            prev
        }
    }
}

/// Phases four and five of a tick: every arrival detonates, and Exploded
/// projectiles are dropped — none arises here, since a fresh detonation is
/// Exploding, so each stays visible for one snapshot.
pub open spec fn settled_of(s: Seq<Bullet>, now: i64) -> Seq<Bullet>
    decreases s.len(),
{
    if s.len() == 0 {
        Seq::empty()
    } else {
        let prev = settled_of(s.drop_last(), now);
        let b = detonated(s.last(), now);
        if live(b) {
            prev.push(b)
        } else {
            prev
        }
    }
}

/// One whole registry tick over a collection of projectiles.
pub open spec fn tick_spec(s: Seq<Bullet>, dt: int, now: i64) -> Seq<Bullet>
    recommends
        dt >= 0,
{
    settled_of(survivors_of(s, dt), now)
}

/// The ordered set of live projectiles, in insertion order.
#[derive(Debug)]
pub struct ProjectileRegistry {
    bullets: Vec<Bullet>,
}

impl View for ProjectileRegistry {
    type V = Seq<Bullet>;

    closed spec fn view(&self) -> Seq<Bullet> {
        self.bullets@
    }
}

impl ProjectileRegistry {
    /// Every held projectile is well formed.
    pub open spec fn wf(self) -> bool {
        forall|i: int| 0 <= i < self@.len() ==> (#[trigger] self@[i]).wf()
    }

    pub fn new() -> (r: Self)
        ensures
            r@ == Seq::<Bullet>::empty(),
            r.wf(),
    {
        ProjectileRegistry { bullets: Vec::new() }
    }

    /// Appends a freshly spawned projectile.
    pub fn add(&mut self, b: Bullet)
        requires
            b.wf(),
        ensures
            final(self)@ == old(self)@.push(b),
            old(self).wf() ==> final(self).wf(),
    {
        self.bullets.push(b);
        proof {
            if old(self).wf() {
                assert forall|i: int| 0 <= i < self@.len() implies (#[trigger] self@[i]).wf() by {
                    if i < old(self)@.len() {
                        assert(self@[i] == old(self)@[i]);
                    } else {
                        assert(self@[i] == b);
                    }
                }
            }
        }
    }

    pub fn len(&self) -> (n: usize)
        ensures
            n == self@.len(),
    {
        self.bullets.len()
    }

    /// A read-only snapshot of one projectile, for the renderer.
    pub fn get(&self, i: usize) -> (b: &Bullet)
        requires
            i < self@.len(),
        ensures
            *b == self@[i as int],
    {
        &self.bullets[i]
    }

    /// One simulation tick of `dt` microseconds at clock reading `now`:
    /// integrates every Traveling projectile, closes every open explosion
    /// window, prunes the Exploded, detonates arrivals, and prunes again.
    pub fn step(&mut self, dt: i64, now: i64)
        requires
            dt >= 0,
            old(self).wf(),
        ensures
            final(self)@ == tick_spec(old(self)@, dt as int, now),
            final(self).wf(),
    {
        let ghost s0 = self.bullets@;
        let n = self.bullets.len();
        let mut survivors: Vec<Bullet> = Vec::new();
        let mut i: usize = 0;
        while i < n
            invariant
                n == s0.len(),
                self.bullets@ == s0,
                i <= n,
                dt >= 0,
                survivors@ == survivors_of(s0.take(i as int), dt as int),
            decreases n - i,
        {
            let mut b = self.bullets[i];
            b.step(dt);
            b.finish_explosion();
            if b.state != BulletState::Exploded {
                survivors.push(b);
            }
            proof {
                assert(s0.take(i as int + 1).drop_last() =~= s0.take(i as int));
                assert(s0.take(i as int + 1).last() == s0[i as int]);
                assert(survivors@ == survivors_of(s0.take(i as int + 1), dt as int));
            }
            i = i + 1;
        }
        proof {
            assert(s0.take(n as int) =~= s0);
        }
        let ghost sv = survivors@;
        let m = survivors.len();
        let mut next: Vec<Bullet> = Vec::new();
        let mut j: usize = 0;
        while j < m
            invariant
                m == sv.len(),
                survivors@ == sv,
                j <= m,
                next@ == settled_of(sv.take(j as int), now),
            decreases m - j,
        {
            let mut b = survivors[j];
            if b.at_target() {
                b.explode(RED, DETONATION_SIZE, DETONATION_DURATION, false, now);
            }
            if b.state != BulletState::Exploded {
                next.push(b);
            }
            proof {
                assert(sv.take(j as int + 1).drop_last() =~= sv.take(j as int));
                assert(sv.take(j as int + 1).last() == sv[j as int]);
                assert(next@ == settled_of(sv.take(j as int + 1), now));
            }
            j = j + 1;
        }
        proof {
            assert(sv.take(m as int) =~= sv);
        }
        self.bullets = next;
        proof {
            assert(s0 == old(self)@);
            assert(forall|i: int| 0 <= i < s0.len() ==> (#[trigger] s0[i]).wf());
            lemma_survivors_wf(s0, dt as int);
            assert(forall|i: int| 0 <= i < sv.len() ==> (#[trigger] sv[i]).wf());
            lemma_settled_wf(sv, now);
        }
    }
}

/// Integration and window-closing preserve well-formedness of every
/// surviving projectile.
pub proof fn lemma_survivors_wf(s: Seq<Bullet>, dt: int)
    requires
        forall|i: int| 0 <= i < s.len() ==> (#[trigger] s[i]).wf(),
    ensures
        forall|i: int|
            0 <= i < survivors_of(s, dt).len() ==> (#[trigger] survivors_of(s, dt)[i]).wf(),
    decreases s.len(),
{
    if s.len() > 0 {
        assert(forall|i: int| 0 <= i < s.drop_last().len() ==> (#[trigger] s.drop_last()[i]).wf());
        lemma_survivors_wf(s.drop_last(), dt);
        let prev = survivors_of(s.drop_last(), dt);
        let b = step_finalize(s.last(), dt);
        assert(s.last().wf());
        assert(b.wf());
        let r = survivors_of(s, dt);
        assert forall|i: int| 0 <= i < r.len() implies (#[trigger] r[i]).wf() by {
            if live(b) {
                assert(r == prev.push(b));
                if i < prev.len() {
                    assert(r[i] == prev[i]);
                } else {
                    assert(r[i] == b);
                }
            } else {
                assert(r == prev);
            }
        }
    }
}

/// The arrival phase preserves well-formedness of every kept projectile.
pub proof fn lemma_settled_wf(s: Seq<Bullet>, now: i64)
    requires
        forall|i: int| 0 <= i < s.len() ==> (#[trigger] s[i]).wf(),
    ensures
        forall|i: int|
            0 <= i < settled_of(s, now).len() ==> (#[trigger] settled_of(s, now)[i]).wf(),
    decreases s.len(),
{
    if s.len() > 0 {
        assert(forall|i: int| 0 <= i < s.drop_last().len() ==> (#[trigger] s.drop_last()[i]).wf());
        lemma_settled_wf(s.drop_last(), now);
        let prev = settled_of(s.drop_last(), now);
        let b = detonated(s.last(), now);
        assert(s.last().wf());
        assert(b.wf());
        let r = settled_of(s, now);
        assert forall|i: int| 0 <= i < r.len() implies (#[trigger] r[i]).wf() by {
            if live(b) {
                assert(r == prev.push(b));
                if i < prev.len() {
                    assert(r[i] == prev[i]);
                } else {
                    assert(r[i] == b);
                }
            } else {
                assert(r == prev);
            }
        }
    }
}

/// After a tick, no Exploded projectile remains in the registry: the
/// arrival phase only creates Exploding ones and both pruning passes drop
/// the Exploded.
pub proof fn lemma_no_exploded_after_tick(s: Seq<Bullet>, dt: int, now: i64)
    ensures
        forall|i: int|
            0 <= i < tick_spec(s, dt, now).len() ==> live(#[trigger] tick_spec(s, dt, now)[i]),
    decreases 0int,
{
    lemma_settled_live(survivors_of(s, dt), now);
}

/// Every projectile a tick keeps is live.
pub proof fn lemma_settled_live(s: Seq<Bullet>, now: i64)
    ensures
        forall|i: int| 0 <= i < settled_of(s, now).len() ==> live(#[trigger] settled_of(s, now)[i]),
    decreases s.len(),
{
    if s.len() > 0 {
        lemma_settled_live(s.drop_last(), now);
        let prev = settled_of(s.drop_last(), now);
        let b = detonated(s.last(), now);
        let r = settled_of(s, now);
        assert forall|i: int| 0 <= i < r.len() implies live(#[trigger] r[i]) by {
            if live(b) {
                assert(r == prev.push(b));
                if i < prev.len() {
                    assert(r[i] == prev[i]);
                } else {
                    assert(r[i] == b);
                }
            } else {
                assert(r == prev);
            }
        }
    }
}

/// One-tick visibility, the closing half: a projectile that enters a tick
/// Exploding leaves nothing behind — it is marked Exploded and pruned
/// within that tick, so the following snapshot no longer holds it.
pub proof fn lemma_exploding_pruned(s: Seq<Bullet>, b: Bullet, dt: int, now: i64)
    requires
        b.state == BulletState::Exploding,
    ensures
        tick_spec(s.push(b), dt, now) == tick_spec(s, dt, now),
{
    assert(s.push(b).drop_last() =~= s);
    assert(!live(step_finalize(b, dt)));
    assert(survivors_of(s.push(b), dt) == survivors_of(s, dt));
}

/// One-tick visibility, the opening half: a Traveling projectile whose
/// integration step carries it within the arrival radius is present in the
/// tick's outcome, Exploding, with its record frozen where it arrived.
pub proof fn lemma_detonation_visible(s: Seq<Bullet>, b: Bullet, dt: int, now: i64)
    requires
        b.state == BulletState::Traveling,
        b.stepped(dt).at_target_spec(),
    ensures
        tick_spec(s.push(b), dt, now) == tick_spec(s, dt, now).push(
            b.stepped(dt).explode_spec(RED, DETONATION_SIZE, DETONATION_DURATION, false, now),
        ),
{
    let b1 = step_finalize(b, dt);
    assert(s.push(b).drop_last() =~= s);
    assert(b1 == b.stepped(dt));
    assert(live(b1));
    assert(survivors_of(s.push(b), dt) == survivors_of(s, dt).push(b1));
    let sv = survivors_of(s, dt);
    assert(sv.push(b1).drop_last() =~= sv);
    let b2 = detonated(b1, now);
    assert(b2.state == BulletState::Exploding);
    assert(live(b2));
    assert(settled_of(sv.push(b1), now) == settled_of(sv, now).push(b2));
}

} // verus!
