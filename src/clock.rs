use vstd::prelude::*;

verus! {

/// The fixed tick period, in milliseconds: the poll-wait bound of the driving
/// loop and the time handed to each `advance`.
pub const TICK_MS: u64 = 20;

/// A work/break pair of durations, in milliseconds.
#[derive(Clone, Copy, Debug, PartialEq, Eq, Structural)]
pub struct DurationPreset {
    pub work_ms: u64,
    pub break_ms: u64,
}

impl Default for DurationPreset {
    /// The classic Pomodoro: 25 minutes of work, 5 minutes of break.
    fn default() -> (r: DurationPreset)
        ensures
            r.work_ms == 25 * 60 * 1000,
            r.break_ms == 5 * 60 * 1000,
    {
        DurationPreset { work_ms: 25 * 60 * 1000, break_ms: 5 * 60 * 1000 }
    }
}

impl DurationPreset {
    /// Whole minutes of work and of break, as a selection list shows them.
    pub fn minutes(&self) -> (r: (u64, u64))
        ensures
            r.0 == self.work_ms / 60000,
            r.1 == self.break_ms / 60000,
    {
        (self.work_ms / 60000, self.break_ms / 60000)
    }
}

/// A duration split the way a countdown display shows it.
#[derive(Clone, Copy, Debug, PartialEq, Eq, Structural)]
pub struct ClockParts {
    pub hours: u64,
    pub minutes: u64,
    pub seconds: u64,
    pub millis: u64,
}

/// Total milliseconds that a split stands for.
pub open spec fn parts_total(p: ClockParts) -> int {
    ((p.hours * 60 + p.minutes) * 60 + p.seconds) * 1000 + p.millis
}

/// Splits `ms` into hours, minutes below an hour, seconds below a minute and
/// milliseconds below a second.
pub fn split_clock(ms: u64) -> (r: ClockParts)
    ensures
        r.millis == ms % 1000,
        r.seconds == (ms / 1000) % 60,
        r.minutes == (ms / 1000 / 60) % 60,
        r.hours == ms / 1000 / 60 / 60,
        r.millis < 1000 && r.seconds < 60 && r.minutes < 60,
        parts_total(r) == ms,
{
    let secs: u64 = ms / 1000;
    let r = ClockParts {
        hours: secs / 60 / 60,
        minutes: (secs / 60) % 60,
        seconds: secs % 60,
        millis: ms % 1000,
    };
    proof {
        let s = secs as int;
        let m = s / 60;
        assert(ms as int == s * 1000 + ms % 1000) by (nonlinear_arith)
            requires s == ms as int / 1000;
        assert(s == m * 60 + s % 60) by (nonlinear_arith)
            requires m == s / 60;
        assert(m == (m / 60) * 60 + m % 60) by (nonlinear_arith);
    }
    r
}

} // verus!
