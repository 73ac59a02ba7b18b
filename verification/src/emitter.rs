//! The emitter behavior: a tower owns one repeating countdown timer and, on
//! each completion, requests the creation of one projectile at a fixed
//! offset from its own position.

use vstd::prelude::*;
use crate::timer::CountdownTimer;
use crate::timer::TimerMode;
use crate::geom::Point3;
use crate::geom::POS_LIMIT;

verus! {

/// The emitter's firing period, in time milliunits (one time unit).
pub const EMITTER_PERIOD: u64 = 1000;

/// Fixed local-space spawn offset (forward and up) of a projectile from its
/// emitter, in space milliunits.
pub const SPAWN_OFFSET_X: i64 = 0;

pub const SPAWN_OFFSET_Y: i64 = 200;

pub const SPAWN_OFFSET_Z: i64 = 600;

/// An emitter: on every completion of its repeating timer it requests one
/// projectile spawn.
#[derive(Clone, Copy, PartialEq, Eq, Structural, Debug)]
pub struct Tower {
    pub shooting_timer: CountdownTimer,
}

/// Where a projectile spawned by an emitter standing at `p` appears:
/// the fixed offset away, forced back into the position bound.
pub open spec fn spec_spawn_position(p: Point3) -> Point3 {
    (Point3 {
        x: crate::geom::spec_clamp_i64(p.x + SPAWN_OFFSET_X, -POS_LIMIT as int, POS_LIMIT as int) as i64,
        y: crate::geom::spec_clamp_i64(p.y + SPAWN_OFFSET_Y, -POS_LIMIT as int, POS_LIMIT as int) as i64,
        z: crate::geom::spec_clamp_i64(p.z + SPAWN_OFFSET_Z, -POS_LIMIT as int, POS_LIMIT as int) as i64,
    })
}

/// Computes the spawn position for an emitter standing at `p`.
pub fn spawn_position(p: Point3) -> (r: Point3)
    requires
        p.in_bounds(),
    ensures
        r == spec_spawn_position(p),
        r.in_bounds(),
{
    let raw = Point3 {
        x: p.x + SPAWN_OFFSET_X,
        y: p.y + SPAWN_OFFSET_Y,
        z: p.z + SPAWN_OFFSET_Z,
    };
    raw.clamped()
}

impl Tower {
    /// A well-formed tower holds a well-formed repeating timer with the
    /// emitter period.
    pub open spec fn wf(self) -> bool {
        &&& self.shooting_timer.wf()
        &&& self.shooting_timer.mode == TimerMode::Repeating
        &&& self.shooting_timer.duration == EMITTER_PERIOD
    }

    /// The value `new` returns.
    pub open spec fn spec_new() -> Tower {
        (Tower {
            shooting_timer: CountdownTimer {
                elapsed: 0,
                duration: EMITTER_PERIOD,
                mode: TimerMode::Repeating,
                finished: false,
                just_completed: false,
            },
        })
    }

    /// A fresh tower whose timer has not yet run.
    pub fn new() -> (t: Tower)
        ensures
            t == Tower::spec_new(),
            t.wf(),
    {
        Tower {
            shooting_timer: CountdownTimer {
                elapsed: 0,
                duration: EMITTER_PERIOD,
                mode: TimerMode::Repeating,
                finished: false,
                just_completed: false,
            },
        }
    }

    /// Advances the tower's timer by this tick's elapsed time; the result
    /// says whether one projectile spawn is requested this tick (at most one
    /// per tick, however large `delta` is).
    pub fn tick(&mut self, delta: u64) -> (spawn: bool)
        requires
            old(self).wf(),
        ensures
            final(self).shooting_timer == old(self).shooting_timer.spec_advance(delta),
            final(self).wf(),
            spawn == final(self).shooting_timer.just_completed,
            spawn == (old(self).shooting_timer.elapsed + delta >= EMITTER_PERIOD),
    {
        self.shooting_timer.advance(delta);
        self.shooting_timer.just_completed()
    }
}

} // verus!
