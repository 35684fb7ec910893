//! The fixed-timestep accumulator that turns frame times into ticks.

use vstd::prelude::*;

verus! {

/// Length of one simulation tick, in microseconds (a quarter of a second).
pub const TICK_INTERVAL_MICROS: u64 = 250_000;

/// Elapsed time, in microseconds, not yet consumed by a tick.
#[derive(Clone, Copy, Debug, PartialEq, Eq, Structural)]
pub struct Clock {
    pub accumulated: u64,
}

/// What the accumulator holds after `dt` more microseconds; it saturates
/// rather than wrap.
pub open spec fn accumulate(acc: u64, dt: u64) -> int {
    if acc + dt > u64::MAX {
        u64::MAX as int
    } else {
        acc + dt
    }
}

/// Whether a tick fires when `dt` is added to `acc`.
pub open spec fn fires(acc: u64, dt: u64) -> bool {
    accumulate(acc, dt) >= TICK_INTERVAL_MICROS
}

/// The accumulator after a call that adds `dt` to `acc`: one interval is
/// taken off when a tick fires, however many have elapsed.
pub open spec fn advanced(acc: u64, dt: u64) -> int {
    if fires(acc, dt) {
        accumulate(acc, dt) - TICK_INTERVAL_MICROS
    } else {
        accumulate(acc, dt)
    }
}

impl Clock {
    /// A clock with nothing accumulated.
    pub fn new() -> (r: Clock)
        ensures
            r.accumulated == 0,
    {
        Clock { accumulated: 0 }
    }

    /// Adds `dt` microseconds; when a whole interval has built up, consumes
    /// exactly one interval and reports that a tick fired.
    pub fn advance(&mut self, dt: u64) -> (fired: bool)
        ensures
            fired == fires(old(self).accumulated, dt),
            final(self).accumulated == advanced(old(self).accumulated, dt),
    {
        self.accumulated = self.accumulated.saturating_add(dt);
        if self.accumulated < TICK_INTERVAL_MICROS {
            return false;
        }
        self.accumulated = self.accumulated - TICK_INTERVAL_MICROS;
        true
    }
}

/// However much time a call adds, at most one tick fires and exactly one
/// interval is consumed: a call that adds ten intervals fires once and
/// leaves nine accumulated.
pub proof fn lemma_one_tick_per_call(acc: u64, dt: u64)
    requires
        acc + dt <= u64::MAX,
    ensures
        fires(acc, dt) <==> acc + dt >= TICK_INTERVAL_MICROS,
        fires(acc, dt) ==> advanced(acc, dt) == acc + dt - TICK_INTERVAL_MICROS,
        !fires(acc, dt) ==> advanced(acc, dt) == acc + dt,
        acc + dt >= 10 * TICK_INTERVAL_MICROS ==> advanced(acc, dt) >= 9 * TICK_INTERVAL_MICROS,
{
}

} // verus!
