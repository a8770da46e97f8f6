//! The escalating difficulty curve: spawn cadence, projectile speed,
//! explosion size and a round counter, advanced by an explicit command.
//!
//! Fixed-point units: the spawn rate in milli-seconds, the speed in
//! milli-units per second, the explosion size in milli-units.

use vstd::prelude::*;

verus! {

/// Default seconds between spawn attempts, in milli-seconds.
pub const DEFAULT_SPAWN_RATE: i64 = 3000;

/// Default projectile speed, in milli-units per second.
pub const DEFAULT_MISSILE_SPEED: i64 = 50_000;

/// Default capacity hint for rounds.
pub const DEFAULT_MISSILE_ROUNDS: u32 = 10;

/// Default explosion radius hint, in milli-units.
pub const DEFAULT_EXPLOSION_SIZE: i64 = 100_000;

/// The escalation parameters of a session.
#[derive(Clone, Copy, Debug, PartialEq, Eq, Structural)]
pub struct Difficulty {
    pub missile_spawn_rate: i64,
    pub missile_speed: i64,
    pub missile_rounds: u32,
    pub round: u32,
    pub explosion_size: i64,
}

impl Difficulty {
    /// The session defaults: round one, a three-second spawn interval,
    /// speed fifty units per second, explosion size one hundred units.
    pub open spec fn defaults() -> Difficulty {
        Difficulty {
            missile_spawn_rate: DEFAULT_SPAWN_RATE,
            missile_speed: DEFAULT_MISSILE_SPEED,
            missile_rounds: DEFAULT_MISSILE_ROUNDS,
            round: 1u32,
            explosion_size: DEFAULT_EXPLOSION_SIZE,
        }
    }

    /// The escalation counter starts at one and only grows, and the speed
    /// is positive and only grows: both hold of the defaults and are kept
    /// by every escalation.
    pub open spec fn wf(self) -> bool {
        self.round >= 1 && self.missile_speed >= 1
    }

    /// Room left in every field for one more escalation; a machine limit,
    /// not a rule of the curve.
    pub open spec fn can_escalate(self) -> bool {
        &&& self.round < u32::MAX
        &&& self.missile_rounds + self.round <= u32::MAX
        &&& i64::MIN + 100 * (self.round as int) <= self.missile_spawn_rate
        &&& self.missile_speed + 1100 * (self.round as int) <= i64::MAX
        &&& i64::MIN + 10 * (self.round as int + 1) <= self.explosion_size
    }

    /// The state one escalation ahead: every field advanced by its
    /// round-scaled delta, the size delta using the incremented round.
    pub open spec fn escalated(self) -> Difficulty
        recommends
            self.can_escalate(),
    {
        Difficulty {
            missile_spawn_rate: (self.missile_spawn_rate - 100 * (self.round as int)) as i64,
            missile_speed: (self.missile_speed + 1100 * (self.round as int)) as i64,
            missile_rounds: (self.missile_rounds + self.round) as u32,
            round: (self.round + 1) as u32,
            explosion_size: (self.explosion_size - 10 * (self.round as int + 1)) as i64,
        }
    }

    pub fn new() -> (d: Self)
        ensures
            d == Self::defaults(),
            d.wf(),
    {
        Difficulty {
            missile_spawn_rate: DEFAULT_SPAWN_RATE,
            missile_speed: DEFAULT_MISSILE_SPEED,
            missile_rounds: DEFAULT_MISSILE_ROUNDS,
            round: 1,
            explosion_size: DEFAULT_EXPLOSION_SIZE,
        }
    }

    /// Restores the session defaults from any state, however many
    /// escalations came before.
    pub fn reset(&mut self)
        ensures
            *final(self) == Self::defaults(),
            final(self).wf(),
    {
        self.missile_spawn_rate = DEFAULT_SPAWN_RATE;
        self.missile_speed = DEFAULT_MISSILE_SPEED;
        self.missile_rounds = DEFAULT_MISSILE_ROUNDS;
        self.round = 1;
        self.explosion_size = DEFAULT_EXPLOSION_SIZE;
    }

    /// Advances the curve one round: the spawn interval shrinks by
    /// `0.1 * round` seconds, the speed grows by `1.1 * round` units per
    /// second, the rounds hint grows by `round`, the round increments, and
    /// the explosion size shrinks by `0.01 * new_round` units. Nothing is
    /// clamped: the interval and the size may cross zero.
    pub fn increase_difficulty(&mut self)
        requires
            old(self).can_escalate(),
        ensures
            *final(self) == old(self).escalated(),
            old(self).wf() ==> final(self).wf(),
    {
        self.missile_spawn_rate = self.missile_spawn_rate - 100 * (self.round as i64);
        self.missile_speed = self.missile_speed + 1100 * (self.round as i64);
        self.missile_rounds = self.missile_rounds + self.round;
        self.round = self.round + 1;
        self.explosion_size = self.explosion_size - 10 * (self.round as i64);
    }

    /// Escalates if every field has room for its delta, and reports
    /// whether it did; the escalation itself never changes. Hosts that
    /// cannot establish `can_escalate` beforehand call this.
    pub fn try_escalate(&mut self) -> (did: bool)
        ensures
            did == old(self).can_escalate(),
            did ==> *final(self) == old(self).escalated(),
            !did ==> *final(self) == *old(self),
            old(self).wf() ==> final(self).wf(),
    {
        let r = self.round;
        if r < u32::MAX && self.missile_rounds <= u32::MAX - r && self.missile_spawn_rate
            >= i64::MIN + 100 * (r as i64) && self.missile_speed <= i64::MAX - 1100 * (r as i64)
            && self.explosion_size >= i64::MIN + 10 * (r as i64 + 1) {
            self.increase_difficulty();
            true
        } else {
            false
        }
    }

    pub fn get_missile_spawn_rate(&self) -> (r: i64)
        ensures
            r == self.missile_spawn_rate,
    {
        self.missile_spawn_rate
    }

    pub fn get_missile_speed(&self) -> (r: i64)
        ensures
            r == self.missile_speed,
    {
        self.missile_speed
    }

    pub fn get_missile_rounds(&self) -> (r: u32)
        ensures
            r == self.missile_rounds,
    {
        self.missile_rounds
    }

    pub fn get_round(&self) -> (r: u32)
        ensures
            r == self.round,
    {
        self.round
    }

    pub fn get_explosion_size(&self) -> (r: i64)
        ensures
            r == self.explosion_size,
    {
        self.explosion_size
    }
}

impl Default for Difficulty {
    fn default() -> (d: Self)
        ensures
            d == Self::defaults(),
    {
        Self::new()
    }
}

} // verus!
