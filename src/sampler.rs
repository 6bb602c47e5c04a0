//! Live progress sampling: reads the shared byte count now and then and reports
//! the speed of the bytes moved since the last report. It only observes.

use crate::measure::Measurement;
use vstd::prelude::*;

verus! {

/// A transfer is watched in this many windows: a report needs more new bytes
/// than the target divided by it.
pub const SAMPLE_WINDOWS: usize = 32;

/// Sampling stops after this long, in microseconds, whether or not the transfer
/// ended.
pub const WATCHDOG_MICROS: u64 = 20000000;

/// Longest pause between two polls, in microseconds.
pub const MAX_PAUSE_MICROS: u64 = 1000000;

/// What the sampler decided on one poll.
#[derive(Clone, Copy, Debug, PartialEq, Eq, Structural)]
pub struct SamplerStep {
    /// Bytes moved since the last report and the time they took, if that is
    /// enough to report.
    pub sample: Option<Measurement>,
    /// Sampling is over: the target was reached or the watchdog expired.
    pub stop: bool,
    /// How long to wait before the next poll.
    pub pause_micros: u64,
}

/// State of the sampler: the target, and the count and time of the last report.
/// Times are microseconds since the sampler started.
pub struct Sampler {
    target: usize,
    last_value: usize,
    last_micros: u64,
}

/// Smallest number of new bytes that is not yet enough for a report.
pub open spec fn report_step(target: nat) -> nat {
    target / (SAMPLE_WINDOWS as nat)
}

impl Sampler {
    /// Bytes that the watched transfer moves in all.
    pub closed spec fn target_spec(&self) -> nat {
        self.target as nat
    }

    /// Count at the last report.
    pub closed spec fn last_value_spec(&self) -> nat {
        self.last_value as nat
    }

    /// Time of the last report.
    pub closed spec fn last_micros_spec(&self) -> nat {
        self.last_micros as nat
    }

    /// A sampler for a transfer of `target` bytes, started at time zero with a
    /// count of zero.
    pub fn new(target: usize) -> (s: Sampler)
        ensures
            s.target_spec() == target,
            s.last_value_spec() == 0,
            s.last_micros_spec() == 0,
    {
        Sampler { target, last_value: 0, last_micros: 0 }
    }

    /// One poll: `current` is the shared count, `now_micros` the time since the
    /// sampler started. Reports when the count grew by more than a window since
    /// the last report, and then remembers this count and time. Stops once the
    /// count reaches the target or the watchdog time has passed. Pauses a
    /// quarter of the time since the last report, at most one second. A count
    /// below the last one gives no report.
    pub fn poll(&mut self, current: usize, now_micros: u64) -> (r: SamplerStep)
        ensures
            final(self).target_spec() == old(self).target_spec(),
            ({
                let elapsed: nat = if now_micros >= old(self).last_micros_spec() {
                    (now_micros - old(self).last_micros_spec()) as nat
                } else {
                    0
                };
                &&& (r.sample is Some <==> current > old(self).last_value_spec()
                    + report_step(old(self).target_spec()))
                &&& (r.sample matches Some(m) ==> {
                    &&& m.bytes == current - old(self).last_value_spec()
                    &&& m.bytes > report_step(old(self).target_spec())
                    &&& m.elapsed_micros == elapsed
                    &&& final(self).last_value_spec() == current
                    &&& final(self).last_micros_spec() == now_micros
                })
                &&& (r.sample is None ==> {
                    &&& final(self).last_value_spec() == old(self).last_value_spec()
                    &&& final(self).last_micros_spec() == old(self).last_micros_spec()
                })
                &&& r.stop == (current >= old(self).target_spec() || now_micros > WATCHDOG_MICROS)
                &&& r.pause_micros == if elapsed / 4 < MAX_PAUSE_MICROS {
                    elapsed / 4
                } else {
                    MAX_PAUSE_MICROS as nat
                }
            }),
    {
        let delta: usize = if current >= self.last_value { current - self.last_value } else { 0 };
        let elapsed: u64 = if now_micros >= self.last_micros { now_micros - self.last_micros } else { 0 };
        let step: usize = self.target / SAMPLE_WINDOWS;
        let sample = if delta > step {
            self.last_value = current;
            self.last_micros = now_micros;
            Some(Measurement { bytes: delta, elapsed_micros: elapsed })
        } else {
            None
        };
        let stop: bool = current >= self.target || now_micros > WATCHDOG_MICROS;
        let quarter: u64 = elapsed / 4;
        let pause_micros: u64 = if quarter < MAX_PAUSE_MICROS { quarter } else { MAX_PAUSE_MICROS };
        SamplerStep { sample, stop, pause_micros }
    }
}

} // verus!
