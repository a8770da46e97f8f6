//! A single projectile: kinematic integration toward a fixed target, arrival
//! detection, and the Traveling -> Exploding -> Exploded state machine with
//! its one-shot explosion record.

use vstd::prelude::*;
use crate::geometry::Vec2;
use crate::geometry::advanced;
use crate::geometry::advance_coord;
use crate::geometry::dist_sq_lt;
use crate::geometry::within_distance;

verus! {

/// Arrival radius: five world units, in milli-units.
pub const ARRIVAL_RADIUS: i64 = 5000;

/// Packed RGBA red, the color of projectiles and their detonations.
pub const RED: u32 = 0xff00_00ff;

/// The lifecycle of a projectile, advancing only forward.
#[derive(Clone, Copy, Debug, PartialEq, Eq, Structural)]
pub enum BulletState {
    Traveling,
    Exploding,
    Exploded,
}

/// How far along its lifecycle a state is.
pub open spec fn state_rank(s: BulletState) -> int {
    match s {
        BulletState::Traveling => 0,
        BulletState::Exploding => 1,
        BulletState::Exploded => 2,
    }
}

/// The payload attached to a projectile when it detonates; immutable once
/// created. Size in milli-units, times in microseconds.
#[derive(Clone, Copy, Debug, PartialEq, Eq, Structural)]
pub struct Explosion {
    pub position: Vec2,
    pub color: u32,
    pub size: i64,
    pub spawn_time: i64,
    pub duration: i64,
    pub flash: bool,
}

impl Explosion {
    pub fn get_spawn_time(&self) -> (t: i64)
        ensures
            t == self.spawn_time,
    {
        self.spawn_time
    }
}

/// A moving entity: spawned at `source`, heading to `target` at a fixed
/// velocity in milli-units per second.
#[derive(Clone, Copy, Debug, PartialEq)]
pub struct Bullet {
    pub source: Vec2,
    pub position: Vec2,
    pub velocity: Vec2,
    pub target: Vec2,
    pub color: u32,
    pub explosion: Option<Explosion>,
    pub state: BulletState,
}

impl Bullet {
    /// A record is attached exactly while the state is past Traveling.
    pub open spec fn wf(self) -> bool {
        (self.explosion is Some) <==> (self.state != BulletState::Traveling)
    }

    /// A fresh projectile: at its source, traveling, no explosion.
    pub open spec fn new_spec(source: Vec2, target: Vec2, velocity: Vec2) -> Bullet {
        Bullet {
            source,
            position: source,
            velocity,
            target,
            color: RED,
            explosion: None,
            state: BulletState::Traveling,
        }
    }

    /// One integration step: a Traveling projectile advances by
    /// `velocity * dt`; any other state is untouched.
    pub open spec fn stepped(self, dt: int) -> Bullet
        recommends
            dt >= 0,
    {
        if self.state == BulletState::Traveling {
            Bullet {
                source: self.source,
                position: Vec2 {
                    x: advanced(self.position.x as int, self.velocity.x as int, dt) as i64,
                    y: advanced(self.position.y as int, self.velocity.y as int, dt) as i64,
                },
                velocity: self.velocity,
                target: self.target,
                color: self.color,
                explosion: self.explosion,
                state: self.state,
            }
        } else {
            self
        }
    }

    /// Whether the projectile is strictly within the arrival radius of its
    /// target.
    pub open spec fn at_target_spec(self) -> bool {
        dist_sq_lt(self.position, self.target, ARRIVAL_RADIUS as int)
    }

    /// The record a detonation at time `now` would attach: frozen at the
    /// current position.
    pub open spec fn detonation_record(
        self,
        color: u32,
        size: i64,
        duration: i64,
        flash: bool,
        now: i64,
    ) -> Explosion {
        Explosion { position: self.position, color, size, spawn_time: now, duration, flash }
    }

    /// A detonation: a Traveling projectile gains a record and starts
    /// Exploding; on any other state the call is a no-op.
    pub open spec fn explode_spec(
        self,
        color: u32,
        size: i64,
        duration: i64,
        flash: bool,
        now: i64,
    ) -> Bullet {
        if self.state == BulletState::Traveling {
            Bullet {
                source: self.source,
                position: self.position,
                velocity: self.velocity,
                target: self.target,
                color: self.color,
                explosion: Some(self.detonation_record(color, size, duration, flash, now)),
                state: BulletState::Exploding,
            }
        } else {
            self
        }
    }

    /// The end of the one-tick explosion window: Exploding becomes
    /// Exploded; any other state is untouched.
    pub open spec fn finalized(self) -> Bullet {
        if self.state == BulletState::Exploding {
            Bullet {
                source: self.source,
                position: self.position,
                velocity: self.velocity,
                target: self.target,
                color: self.color,
                explosion: self.explosion,
                state: BulletState::Exploded,
            }
        } else {
            self
        }
    }

    pub fn new(source: Vec2, target: Vec2, velocity: Vec2) -> (b: Bullet)
        ensures
            b == Self::new_spec(source, target, velocity),
            b.wf(),
    {
        Bullet {
            source,
            position: source,
            velocity,
            target,
            color: RED,
            explosion: None,
            state: BulletState::Traveling,
        }
    }

    /// Advances the position over `dt` microseconds while Traveling.
    pub fn step(&mut self, dt: i64)
        requires
            dt >= 0,
        ensures
            *final(self) == old(self).stepped(dt as int),
            old(self).wf() ==> final(self).wf(),
    {
        if self.state == BulletState::Traveling {
            let nx = advance_coord(self.position.x, self.velocity.x, dt);
            let ny = advance_coord(self.position.y, self.velocity.y, dt);
            self.position = Vec2 { x: nx, y: ny };
        }
    }

    /// Whether the projectile has come within the arrival radius of its
    /// target.
    pub fn at_target(&self) -> (r: bool)
        ensures
            r == self.at_target_spec(),
    {
        within_distance(self.position, self.target, ARRIVAL_RADIUS)
    }

    /// Detonates a Traveling projectile: attaches a record frozen at the
    /// current position, stamped with the clock reading `now`, and moves to
    /// Exploding. A projectile already Exploding or Exploded is left alone.
    pub fn explode(&mut self, color: u32, size: i64, duration: i64, flash: bool, now: i64)
        ensures
            *final(self) == old(self).explode_spec(color, size, duration, flash, now),
            old(self).wf() ==> final(self).wf(),
    {
        if self.state != BulletState::Traveling {
            return ;
        }
        self.explosion = Some(
            Explosion {
                position: self.position,
                color,
                size,
                spawn_time: now,
                duration,
                flash,
            },
        );
        self.state = BulletState::Exploding;
    }

    /// Closes the one-tick explosion window: Exploding becomes Exploded.
    pub fn finish_explosion(&mut self)
        ensures
            *final(self) == old(self).finalized(),
            old(self).wf() ==> final(self).wf(),
    {
        if self.state == BulletState::Exploding {
            self.state = BulletState::Exploded;
        }
    }

    /// The attached record's timestamp, or zero while none is attached.
    pub fn get_explosion_spawn_time(&self) -> (t: i64)
        ensures
            t == if self.explosion is Some {
                self.explosion->Some_0.spawn_time
            } else {
                0
            },
    {
        match &self.explosion {
            None => 0,
            Some(e) => e.spawn_time,
        }
    }
}

/// The lifecycle only moves forward: no transition lowers a projectile's
/// state, so one that has begun Exploding never travels again, and one that
/// has Exploded never returns to Exploding.
pub proof fn lemma_state_monotonic(
    b: Bullet,
    dt: int,
    color: u32,
    size: i64,
    duration: i64,
    flash: bool,
    now: i64,
)
    ensures
        state_rank(b.stepped(dt).state) >= state_rank(b.state),
        state_rank(b.finalized().state) >= state_rank(b.state),
        state_rank(b.explode_spec(color, size, duration, flash, now).state) >= state_rank(b.state),
{
}

/// A second detonation is a no-op: however a projectile is detonated twice,
/// the result is that of the first detonation alone, so exactly one record
/// is ever attached.
pub proof fn lemma_explode_at_most_once(
    b: Bullet,
    color1: u32,
    size1: i64,
    duration1: i64,
    flash1: bool,
    now1: i64,
    color2: u32,
    size2: i64,
    duration2: i64,
    flash2: bool,
    now2: i64,
)
    ensures
        b.explode_spec(color1, size1, duration1, flash1, now1).explode_spec(
            color2,
            size2,
            duration2,
            flash2,
            now2,
        ) == b.explode_spec(color1, size1, duration1, flash1, now1),
{
}

} // verus!
