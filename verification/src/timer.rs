//! The spawn timer: a repeating countdown with a fixed period. One tick
//! fires at most once, however far a single frame's elapsed time
//! overshoots the period, and the remainder wraps into the next cycle —
//! so the spawn cadence stays deterministic under frame-rate variation.

use vstd::prelude::*;

use crate::{MAX_DT_MS, MAX_PERIOD_MS};

verus! {

/// A repeating countdown, in milliseconds.
#[derive(Debug, Clone, Copy, PartialEq, Eq, Structural)]
pub struct SpawnTimer {
    /// The fixed period between firings.
    pub period_ms: u64,
    /// Time accumulated since the last firing; always below the period.
    pub elapsed_ms: u64,
}

/// Well-formedness of a timer: a positive, bounded period, with the
/// accumulated time strictly inside it.
pub open spec fn timer_inv(t: SpawnTimer) -> bool {
    &&& 0 < t.period_ms <= MAX_PERIOD_MS
    &&& t.elapsed_ms < t.period_ms
}

/// Whether a tick of `dt` milliseconds completes the period.
pub open spec fn timer_fires(t: SpawnTimer, dt: int) -> bool {
    t.elapsed_ms + dt >= t.period_ms
}

/// The timer's state after a tick of `dt` milliseconds: the accumulated
/// time grows by `dt` and, when the period is completed, wraps modulo the
/// period — one firing per tick, never several.
pub open spec fn ticked(t: SpawnTimer, dt: int) -> SpawnTimer {
    if timer_fires(t, dt) {
        SpawnTimer { period_ms: t.period_ms, elapsed_ms: ((t.elapsed_ms + dt) % (t.period_ms as int)) as u64 }
    } else {
        SpawnTimer { period_ms: t.period_ms, elapsed_ms: (t.elapsed_ms + dt) as u64 }
    }
}

impl SpawnTimer {
    /// A freshly started timer with the given period.
    pub fn new(period_ms: u64) -> (t: SpawnTimer)
        requires
            0 < period_ms <= MAX_PERIOD_MS,
        ensures
            t.period_ms == period_ms,
            t.elapsed_ms == 0,
            timer_inv(t),
    {
        SpawnTimer { period_ms, elapsed_ms: 0 }
    }

    /// Advances the timer by `dt_ms` milliseconds and reports whether it
    /// fired. It fires exactly when the accumulated time reaches the
    /// period, and at most once per tick whatever `dt_ms` is.
    pub fn tick(&mut self, dt_ms: u64) -> (fired: bool)
        requires
            timer_inv(*old(self)),
            dt_ms <= MAX_DT_MS,
        ensures
            fired == timer_fires(*old(self), dt_ms as int),
            *final(self) == ticked(*old(self), dt_ms as int),
            timer_inv(*final(self)),
    {
        let total = self.elapsed_ms + dt_ms;
        if total >= self.period_ms {
            self.elapsed_ms = total % self.period_ms;
            true
        } else {
            self.elapsed_ms = total;
            false
        }
    }
}

} // verus!
