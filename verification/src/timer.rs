//! A reusable countdown primitive: it tracks elapsed time against a fixed
//! duration and raises an edge-triggered "just completed" signal on the tick
//! where the elapsed time crosses the duration.
//!
//! Durations and deltas are measured in integer time milliunits
//! (1000 milliunits = 1 time unit).

use vstd::prelude::*;
use vstd::arithmetic::div_mod::lemma_fundamental_div_mod;
use vstd::arithmetic::div_mod::lemma_fundamental_div_mod_converse;
use vstd::arithmetic::div_mod::lemma_small_mod;
use vstd::arithmetic::div_mod::lemma_basic_div;

verus! {

/// Completion semantics: fire once and stop, or fire and reset every period.
#[derive(Clone, Copy, PartialEq, Eq, Structural, Debug)]
pub enum TimerMode {
    OneShot,
    Repeating,
}

/// The one configuration error: a timer must have a positive duration.
#[derive(Clone, Copy, PartialEq, Eq, Structural, Debug)]
pub enum TimerError {
    ZeroDuration,
}

/// Tracks elapsed time against a duration, in time milliunits.
///
/// `just_completed` is an edge-triggered signal: it is true exactly on the
/// tick in which a completion occurred and is reset by the next `advance`.
#[derive(Clone, Copy, PartialEq, Eq, Structural, Debug)]
pub struct CountdownTimer {
    pub elapsed: u64,
    pub duration: u64,
    pub mode: TimerMode,
    pub finished: bool,
    pub just_completed: bool,
}

impl CountdownTimer {
    /// Well-formedness: positive duration; a repeating timer keeps its
    /// elapsed time strictly below one period (overshoot wraps, it never
    /// accumulates), and a one-shot timer is finished exactly when its
    /// elapsed time has been clamped to the duration.
    pub open spec fn wf(self) -> bool {
        &&& self.duration > 0
        &&& (self.mode == TimerMode::Repeating ==> self.elapsed < self.duration && !self.finished)
        &&& (self.mode == TimerMode::OneShot ==> self.elapsed <= self.duration
            && (self.finished <==> self.elapsed == self.duration))
    }

    /// The exact result of advancing a timer by `delta`.
    ///
    /// Repeating: the elapsed time wraps modulo the duration, and the signal
    /// is raised if at least one period boundary was crossed — several
    /// crossings within one call collapse to a single signal. One-shot: a
    /// finished timer is left alone; otherwise the elapsed time is clamped to
    /// the duration and the signal is raised on the crossing tick only.
    pub open spec fn spec_advance(self, delta: u64) -> CountdownTimer {
        if self.mode == TimerMode::Repeating {
            if self.elapsed + delta >= self.duration {
                (CountdownTimer {
                    elapsed: ((self.elapsed + delta) % (self.duration as int)) as u64,
                    duration: self.duration,
                    mode: self.mode,
                    finished: false,
                    just_completed: true,
                })
            } else {
                (CountdownTimer {
                    elapsed: (self.elapsed + delta) as u64,
                    duration: self.duration,
                    mode: self.mode,
                    finished: false,
                    just_completed: false,
                })
            }
        } else if self.finished {
            (CountdownTimer {
                elapsed: self.elapsed,
                duration: self.duration,
                mode: self.mode,
                finished: true,
                just_completed: false,
            })
        } else if self.elapsed + delta >= self.duration {
            (CountdownTimer {
                elapsed: self.duration,
                duration: self.duration,
                mode: self.mode,
                finished: true,
                just_completed: true,
            })
        } else {
            (CountdownTimer {
                elapsed: (self.elapsed + delta) as u64,
                duration: self.duration,
                mode: self.mode,
                finished: false,
                just_completed: false,
            })
        }
    }

    /// Builds a timer with the given duration (in milliunits) and mode.
    /// A zero duration is a configuration error and is rejected.
    pub fn new(duration: u64, mode: TimerMode) -> (r: Result<CountdownTimer, TimerError>)
        ensures
            duration > 0 <==> r is Ok,
            r is Ok ==> r->Ok_0 == (CountdownTimer {
                elapsed: 0,
                duration,
                mode,
                finished: false,
                just_completed: false,
            }),
            r is Ok ==> r->Ok_0.wf(),
            r is Err ==> r->Err_0 == TimerError::ZeroDuration,
    {
        if duration == 0 {
            Err(TimerError::ZeroDuration)
        } else {
            Ok(CountdownTimer {
                elapsed: 0,
                duration,
                mode,
                finished: false,
                just_completed: false,
            })
        }
    }

    /// Advances the timer by `delta` milliunits, exactly as `spec_advance`
    /// describes, preserving well-formedness.
    pub fn advance(&mut self, delta: u64)
        requires
            old(self).wf(),
        ensures
            *final(self) == old(self).spec_advance(delta),
            final(self).wf(),
    {
        if self.mode == TimerMode::Repeating {
            let headroom = self.duration - self.elapsed;
            if delta < headroom {
                self.elapsed = self.elapsed + delta;
                self.just_completed = false;
            } else {
                let over = delta - headroom;
                let rem = over % self.duration;
                proof {
                    // (elapsed + delta) and `over` differ by one duration,
                    // so they leave the same remainder.
                    let d = self.duration as int;
                    lemma_fundamental_div_mod(over as int, d);
                    assert((over as int / d + 1) * d == d * (over as int / d) + d)
                        by (nonlinear_arith);
                    lemma_fundamental_div_mod_converse(
                        old(self).elapsed + delta,
                        d,
                        over as int / d + 1,
                        rem as int,
                    );
                }
                self.elapsed = rem;
                self.just_completed = true;
            }
        } else if self.finished {
            self.just_completed = false;
        } else {
            let headroom = self.duration - self.elapsed;
            if delta >= headroom {
                self.elapsed = self.duration;
                self.finished = true;
                self.just_completed = true;
            } else {
                self.elapsed = self.elapsed + delta;
                self.just_completed = false;
            }
        }
    }

    /// True exactly on the tick in which a completion occurred.
    pub fn just_completed(&self) -> (r: bool)
        ensures
            r == self.just_completed,
    {
        self.just_completed
    }

    /// True once a one-shot timer has completed; always false for repeating.
    pub fn is_finished(&self) -> (r: bool)
        ensures
            r == self.finished,
    {
        self.finished
    }
}

/// The timer after `n` advances of `delta` milliunits each.
pub open spec fn repeat_advance(t: CountdownTimer, delta: u64, n: nat) -> CountdownTimer
    decreases n,
{
    if n == 0 {
        t
    } else {
        repeat_advance(t, delta, (n - 1) as nat).spec_advance(delta)
    }
}

/// How many of the first `n` advances of `delta` raised the completion signal.
pub open spec fn repeat_signal_count(t: CountdownTimer, delta: u64, n: nat) -> int
    decreases n,
{
    if n == 0 {
        0
    } else {
        repeat_signal_count(t, delta, (n - 1) as nat) + (
        if repeat_advance(t, delta, n).just_completed {
            1int
        } else {
            0int
        })
    }
}

/// The timer after advancing once for each delta in `ds`, in order.
pub open spec fn run_deltas(t: CountdownTimer, ds: Seq<u64>) -> CountdownTimer
    decreases ds.len(),
{
    if ds.len() == 0 {
        t
    } else {
        run_deltas(t.spec_advance(ds.first()), ds.drop_first())
    }
}

/// How many advances over the deltas in `ds` raised the completion signal.
pub open spec fn signal_count(t: CountdownTimer, ds: Seq<u64>) -> int
    decreases ds.len(),
{
    if ds.len() == 0 {
        0
    } else {
        (if t.spec_advance(ds.first()).just_completed {
            1int
        } else {
            0int
        }) + signal_count(t.spec_advance(ds.first()), ds.drop_first())
    }
}

/// The total time covered by the deltas in `ds`.
pub open spec fn sum_deltas(ds: Seq<u64>) -> int
    decreases ds.len(),
{
    if ds.len() == 0 {
        0
    } else {
        ds.first() + sum_deltas(ds.drop_first())
    }
}

pub proof fn lemma_sum_deltas_nonneg(ds: Seq<u64>)
    ensures
        sum_deltas(ds) >= 0,
    decreases ds.len(),
{
    if ds.len() > 0 {
        lemma_sum_deltas_nonneg(ds.drop_first());
    }
}

/// Law: one `advance` of a repeating timer raises at most one signal, however
/// many period boundaries the delta spans (several crossings collapse to one
/// signal), it raises the signal exactly when a boundary is crossed, and the
/// elapsed time wraps modulo the period.
pub proof fn lemma_repeating_collapse(t: CountdownTimer, delta: u64)
    requires
        t.wf(),
        t.mode == TimerMode::Repeating,
    ensures
        t.spec_advance(delta).just_completed <==> t.elapsed + delta >= t.duration,
        t.spec_advance(delta).elapsed == (t.elapsed + delta) % (t.duration as int),
        t.spec_advance(delta).wf(),
{
    if t.elapsed + delta < t.duration {
        lemma_small_mod((t.elapsed + delta) as nat, t.duration as nat);
    }
}

/// Law: advancing a well-formed repeating timer `n` times by a fixed delta
/// `0 < delta <= duration` raises exactly one signal per full period crossed:
/// the signal count equals the number of whole periods in the accumulated
/// time, and the elapsed time is the accumulated time modulo the period.
pub proof fn lemma_repeating_signal_per_period(t: CountdownTimer, delta: u64, n: nat)
    requires
        t.wf(),
        t.mode == TimerMode::Repeating,
        0 < delta <= t.duration,
    ensures
        repeat_advance(t, delta, n).wf(),
        repeat_advance(t, delta, n).mode == TimerMode::Repeating,
        repeat_advance(t, delta, n).duration == t.duration,
        repeat_advance(t, delta, n).elapsed == (t.elapsed + n * delta) % (t.duration as int),
        repeat_signal_count(t, delta, n) == (t.elapsed + n * delta) / (t.duration as int),
    decreases n,
{
    let d = t.duration as int;
    if n == 0 {
        lemma_small_mod(t.elapsed as nat, t.duration as nat);
        lemma_basic_div(t.elapsed as int, d);
    } else {
        lemma_repeating_signal_per_period(t, delta, (n - 1) as nat);
        let prev = repeat_advance(t, delta, (n - 1) as nat);
        let x = t.elapsed + (n - 1) * delta;
        assert(t.elapsed + n * delta == x + delta) by (nonlinear_arith)
            requires
                x == t.elapsed + (n - 1) * delta,
                n >= 1,
        ;
        lemma_fundamental_div_mod(x, d);
        assert(x == (x / d) * d + x % d) by (nonlinear_arith)
            requires
                x == d * (x / d) + x % d,
        ;
        if prev.elapsed + delta < d {
            assert((x / d) * d + (x % d + delta) == (x / d) * d + x % d + delta);
            lemma_fundamental_div_mod_converse(x + delta, d, x / d, x % d + delta);
        } else {
            let r2 = x % d + delta - d;
            assert(x + delta == (x / d + 1) * d + r2) by (nonlinear_arith)
                requires
                    x == (x / d) * d + x % d,
                    r2 == x % d + delta - d,
            ;
            lemma_fundamental_div_mod_converse(x + delta, d, x / d + 1, r2);
            lemma_fundamental_div_mod_converse(prev.elapsed + delta, d, 1, r2);
        }
    }
}

/// Law: a one-shot timer signals completion exactly once over its entire
/// lifetime, however many `advance` calls occur: across any sequence of
/// deltas, the signal is raised exactly once if the timer was unfinished and
/// the accumulated time reaches the duration, and never otherwise.
pub proof fn lemma_oneshot_completes_once(t: CountdownTimer, ds: Seq<u64>)
    requires
        t.wf(),
        t.mode == TimerMode::OneShot,
    ensures
        signal_count(t, ds) == if !t.finished && t.elapsed + sum_deltas(ds) >= t.duration {
            1int
        } else {
            0int
        },
        signal_count(t, ds) <= 1,
    decreases ds.len(),
{
    if ds.len() > 0 {
        let t2 = t.spec_advance(ds.first());
        lemma_oneshot_completes_once(t2, ds.drop_first());
        lemma_sum_deltas_nonneg(ds.drop_first());
    }
}

} // verus!
