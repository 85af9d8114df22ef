//! Tick timing against the high-resolution clock.
use vstd::prelude::*;
use crate::config::Config;
use crate::physics::{TickOutcome, after_publish, outcome_of};

verus! {

/// Relies on time::precise_time_ns: a reading of a high-resolution counter,
/// in nanoseconds since an unspecified epoch. Nothing is assumed of the value.
#[verifier::external_body]
fn now_ns() -> (r: u64) {
    time::precise_time_ns()
}

/// Nanoseconds from `start_ns` to `now_ns`; zero if the clock reads earlier
/// than the start.
pub open spec fn elapsed_spec(start_ns: u64, now_ns: u64) -> u64 {
    if now_ns >= start_ns {
        (now_ns - start_ns) as u64
    } else {
        0
    }
}

/// Nanoseconds from `start_ns` to `now_ns`, never below zero.
pub fn elapsed_between(start_ns: u64, now_ns: u64) -> (r: u64)
    ensures
        r == elapsed_spec(start_ns, now_ns),
{
    if now_ns >= start_ns {
        now_ns - start_ns
    } else {
        0
    }
}

/// Times one physics tick.
pub struct Pacer {
    /// Target duration of a tick.
    pub period_ns: u64,
    /// Clock reading when the tick began.
    pub start_ns: u64,
}

impl Pacer {
    /// Starts timing a tick of the configured period.
    pub fn start(cfg: &Config) -> (r: Pacer)
        ensures
            r.period_ns == cfg.tick_period_ns,
    {
        Pacer { period_ns: cfg.tick_period_ns, start_ns: now_ns() }
    }

    /// Ends the tick: stop if the snapshot was not delivered, else sleep out
    /// whatever the clock says is left of the period.
    pub fn finish(&self, published: bool) -> (r: TickOutcome)
        ensures
            !published ==> r == TickOutcome::Terminate,
            published ==> exists|now: u64|
                r == #[trigger] outcome_of(self.period_ns, true, elapsed_spec(self.start_ns, now)),
            r matches TickOutcome::Sleep { nanos } ==> nanos <= self.period_ns,
    {
        if !published {
            return TickOutcome::Terminate;
        }
        let now = now_ns();
        after_publish(self.period_ns, true, elapsed_between(self.start_ns, now))
    }
}

} // verus!
