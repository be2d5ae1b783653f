//! Watching the time between ticks against the nominal period.
//!
//! The monitor only reports. It never changes the schedule: a late tick is
//! not made up for, and lateness that persists simply accumulates.
use vstd::prelude::*;
use crate::binary32::nanos_limit;
use crate::time_step::TimeStep;

verus! {

/// The time from `last` to `now`, or nothing where the clock went backwards.
pub open spec fn elapsed_between(last: nat, now: nat) -> nat {
    if now >= last {
        (now - last) as nat
    } else {
        0
    }
}

/// `elapsed` is more than eleven tenths of `period`.
pub open spec fn exceeds_limit(elapsed: nat, period: nat) -> bool {
    10 * elapsed > 11 * period
}

/// Eleven tenths of `period`, in whole nanoseconds.
pub open spec fn warn_limit(period: nat) -> nat {
    11 * period / 10
}

/// The tick counter after one more tick; it stops at the largest value.
pub open spec fn next_tick(ticks: u64) -> u64 {
    if ticks < u64::MAX {
        (ticks + 1) as u64
    } else {
        ticks
    }
}

/// One tick that came later than the limit allows.
#[derive(Clone, Copy, PartialEq, Eq, Structural, Debug)]
pub struct DriftReport {
    /// How many ticks were observed before this one.
    pub tick: u64,
    /// The limit that was exceeded, in nanoseconds.
    pub limit_nanos: u128,
    /// The time since the previous tick, in nanoseconds.
    pub elapsed_nanos: u128,
    /// The nominal period, in nanoseconds.
    pub nominal_nanos: u128,
}

/// Remembers when the previous tick came and how many there were.
#[derive(Clone, Copy, Debug)]
pub struct DriftMonitor {
    period_nanos: u128,
    last_nanos: u128,
    ticks: u64,
}

impl DriftMonitor {
    #[verifier::type_invariant]
    spec fn well_formed(self) -> bool {
        self.period_nanos < nanos_limit()
    }

    /// The nominal period in nanoseconds.
    pub closed spec fn period(&self) -> nat {
        self.period_nanos as nat
    }

    /// The time of the previous tick, or of the start where there was none.
    pub closed spec fn last(&self) -> nat {
        self.last_nanos as nat
    }

    /// How many ticks have been observed.
    pub closed spec fn ticks(&self) -> u64 {
        self.ticks
    }

    /// What observing a tick at `now` reports.
    pub open spec fn verdict(&self, now: nat) -> Option<DriftReport> {
        let elapsed = elapsed_between(self.last(), now);
        if exceeds_limit(elapsed, self.period()) {
            Some(
                DriftReport {
                    tick: self.ticks(),
                    limit_nanos: warn_limit(self.period()) as u128,
                    elapsed_nanos: elapsed as u128,
                    nominal_nanos: self.period() as u128,
                },
            )
        } else {
            None
        }
    }

    /// A monitor for ticks of period `step`, started at `start_nanos` on the
    /// caller's clock.
    pub fn new(step: &TimeStep, start_nanos: u128) -> (monitor: DriftMonitor)
        ensures
            monitor.period() == step.period_nanos(),
            monitor.last() == start_nanos,
            monitor.ticks() == 0,
    {
        let period_nanos: u128 = step.period_total_nanos();
        DriftMonitor { period_nanos, last_nanos: start_nanos, ticks: 0 }
    }

    /// Observes a tick at `now_nanos` on the caller's clock.
    ///
    /// The tick is reported when the time since the previous one is more
    /// than eleven tenths of the period. In every case the tick is counted
    /// and `now_nanos` becomes the time of the previous tick.
    pub fn observe(&mut self, now_nanos: u128) -> (report: Option<DriftReport>)
        ensures
            report == old(self).verdict(now_nanos as nat),
            final(self).last() == now_nanos,
            final(self).ticks() == next_tick(old(self).ticks()),
            final(self).period() == old(self).period(),
    {
        proof {
            use_type_invariant(&*self);
        }
        let elapsed: u128 = if now_nanos >= self.last_nanos {
            now_nanos - self.last_nanos
        } else {
            0
        };
        let allowed: u128 = 11 * self.period_nanos;
        let late = match elapsed.checked_mul(10) {
            Some(scaled) => scaled > allowed,
            None => true,
        };
        let report = if late {
            Some(
                DriftReport {
                    tick: self.ticks,
                    limit_nanos: allowed / 10,
                    elapsed_nanos: elapsed,
                    nominal_nanos: self.period_nanos,
                },
            )
        } else {
            None
        };
        self.last_nanos = now_nanos;
        if self.ticks < u64::MAX {
            self.ticks = self.ticks + 1;
        }
        report
    }
}

} // verus!
