//! The lifetime behavior: a one-shot countdown timer attached to a spawned
//! entity; on completion it requests the removal of its owner. Removal is
//! terminal — a removed entity's timer is never advanced again.

use vstd::prelude::*;
use crate::timer::CountdownTimer;
use crate::timer::TimerError;
use crate::timer::TimerMode;

verus! {

/// How long a projectile lives, in time milliunits (half a time unit).
pub const PROJECTILE_LIFETIME: u64 = 500;

/// A lifetime: on the completion of its one-shot timer the owning entity is
/// to be removed.
#[derive(Clone, Copy, PartialEq, Eq, Structural, Debug)]
pub struct LifeTime {
    pub timer: CountdownTimer,
}

impl LifeTime {
    /// A well-formed lifetime holds a well-formed one-shot timer.
    pub open spec fn wf(self) -> bool {
        &&& self.timer.wf()
        &&& self.timer.mode == TimerMode::OneShot
    }

    /// A lifetime of `duration` milliunits; a zero duration is rejected.
    pub fn new(duration: u64) -> (r: Result<LifeTime, TimerError>)
        ensures
            duration > 0 <==> r is Ok,
            r is Ok ==> r->Ok_0 == (LifeTime {
                timer: CountdownTimer {
                    elapsed: 0,
                    duration,
                    mode: TimerMode::OneShot,
                    finished: false,
                    just_completed: false,
                },
            }),
            r is Ok ==> r->Ok_0.wf(),
            r is Err ==> r->Err_0 == TimerError::ZeroDuration,
    {
        match CountdownTimer::new(duration, TimerMode::OneShot) {
            Ok(timer) => Ok(LifeTime { timer }),
            Err(e) => Err(e),
        }
    }

    /// The fresh lifetime every projectile is spawned with.
    pub fn for_projectile() -> (l: LifeTime)
        ensures
            l == LifeTime::spec_for_projectile(),
            l.wf(),
    {
        LifeTime {
            timer: CountdownTimer {
                elapsed: 0,
                duration: PROJECTILE_LIFETIME,
                mode: TimerMode::OneShot,
                finished: false,
                just_completed: false,
            },
        }
    }

    /// The value `for_projectile` returns.
    pub open spec fn spec_for_projectile() -> LifeTime {
        (LifeTime {
            timer: CountdownTimer {
                elapsed: 0,
                duration: PROJECTILE_LIFETIME,
                mode: TimerMode::OneShot,
                finished: false,
                just_completed: false,
            },
        })
    }

    /// Advances the timer by this tick's elapsed time; the result says
    /// whether the owning entity's removal is requested this tick.
    pub fn tick(&mut self, delta: u64) -> (expired: bool)
        requires
            old(self).wf(),
        ensures
            final(self).timer == old(self).timer.spec_advance(delta),
            final(self).wf(),
            expired == final(self).timer.just_completed,
            expired == (!old(self).timer.finished && old(self).timer.elapsed + delta
                >= old(self).timer.duration),
    {
        self.timer.advance(delta);
        self.timer.just_completed()
    }
}

} // verus!
