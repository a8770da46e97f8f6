//! One simulation session: a difficulty curve, a spawn scheduler and a
//! projectile registry, owned together and driven by the host loop — one
//! `tick` per rendered frame, plus discrete player commands.

use vstd::prelude::*;
use crate::difficulty::Difficulty;
use crate::geometry::MAX_COORD;
use crate::projectile::Bullet;
use crate::registry::ProjectileRegistry;
use crate::registry::tick_spec;
use crate::scheduler::SPAWN_THRESHOLD;
use crate::scheduler::SpawnScheduler;
use crate::scheduler::make_spawn_request;
use crate::scheduler::spawn_request_spec;

verus! {

/// A discrete player command, applied at most once per frame.
#[derive(Clone, Copy, Debug, PartialEq, Eq, Structural)]
pub enum Command {
    Reset,
    Escalate,
}

/// The whole mutable state of one simulation session.
pub struct Session {
    pub difficulty: Difficulty,
    pub scheduler: SpawnScheduler,
    pub registry: ProjectileRegistry,
}

/// The projectile a threshold crossing spawns, launched from the top edge
/// toward the bottom edge at the curve's current speed.
pub open spec fn spawned_bullet(
    speed: i64,
    source_x: i64,
    target_x: i64,
    screen_height: i64,
) -> Bullet {
    let req = spawn_request_spec(source_x, target_x, screen_height, speed);
    Bullet::new_spec(req.source, req.target, req.velocity)
}

impl Session {
    pub open spec fn wf(self) -> bool {
        self.difficulty.wf() && self.scheduler.wf() && self.registry.wf()
    }

    pub fn new() -> (s: Self)
        ensures
            s.wf(),
            s.difficulty == Difficulty::defaults(),
            s.scheduler.elapsed == 0,
            s.registry@ == Seq::<Bullet>::empty(),
    {
        Session {
            difficulty: Difficulty::new(),
            scheduler: SpawnScheduler::new(),
            registry: ProjectileRegistry::new(),
        }
    }

    /// One frame of simulation: `dt` microseconds are fed to the spawn
    /// scheduler; on a threshold crossing one projectile is spawned from
    /// the caller's two random abscissas; then the registry runs its tick,
    /// stepping the new projectile along with the rest.
    pub fn tick(&mut self, dt: i64, now: i64, source_x: i64, target_x: i64, screen_height: i64)
        requires
            old(self).wf(),
            0 <= dt <= i64::MAX - SPAWN_THRESHOLD,
            0 <= source_x <= MAX_COORD,
            0 <= target_x <= MAX_COORD,
            0 < screen_height <= MAX_COORD,
        ensures
            final(self).wf(),
            final(self).difficulty == old(self).difficulty,
            final(self).scheduler == old(self).scheduler.after(dt as int),
            final(self).registry@ == tick_spec(
                if old(self).scheduler.crosses(dt as int) {
                    old(self).registry@.push(
                        spawned_bullet(
                            old(self).difficulty.missile_speed,
                            source_x,
                            target_x,
                            screen_height,
                        ),
                    )
                } else {
                    old(self).registry@
                },
                dt as int,
                now,
            ),
    {
        let emit = self.scheduler.tick(dt);
        if emit {
            let speed = self.difficulty.get_missile_speed();
            let req = make_spawn_request(source_x, target_x, screen_height, speed);
            let b = Bullet::new(req.source, req.target, req.velocity);
            self.registry.add(b);
        }
        self.registry.step(dt, now);
    }

    /// Applies a discrete player command: Reset restores the difficulty
    /// defaults, Escalate advances the curve one round. Neither touches
    /// the scheduler or the projectiles.
    pub fn command(&mut self, c: Command)
        requires
            old(self).wf(),
            c == Command::Escalate ==> old(self).difficulty.can_escalate(),
        ensures
            final(self).wf(),
            final(self).difficulty == if c == Command::Reset {
                Difficulty::defaults()
            } else {
                old(self).difficulty.escalated()
            },
            final(self).scheduler == old(self).scheduler,
            final(self).registry@ == old(self).registry@,
    {
        match c {
            Command::Reset => self.difficulty.reset(),
            Command::Escalate => self.difficulty.increase_difficulty(),
        }
    }
}

} // verus!
