use vstd::prelude::*;

verus! {

/// Seconds between two reports.
pub const REPORT_INTERVAL_SECS: u64 = 60;

/// Uptime, in whole days, past which the uptime clock starts again.
pub const REBASELINE_DAYS: u64 = 4;

/// An uptime split into days, hours, minutes and seconds.
#[derive(Clone, Copy, Debug, PartialEq, Eq, Structural)]
pub struct UptimeParts {
    pub days: u64,
    pub hours: u64,
    pub minutes: u64,
    pub seconds: u64,
}

/// Splits `secs` seconds of uptime into days, hours of the day, minutes of
/// the hour and seconds of the minute.
pub fn split_uptime(secs: u64) -> (r: UptimeParts)
    ensures
        r.days == secs / 86400,
        r.hours == (secs % 86400) / 3600,
        r.minutes == (secs % 3600) / 60,
        r.seconds == secs % 60,
        r.hours < 24,
        r.minutes < 60,
        r.seconds < 60,
{
    UptimeParts {
        days: secs / 86400,
        hours: (secs % 86400) / 3600,
        minutes: (secs % 3600) / 60,
        seconds: secs % 60,
    }
}

/// Whether the uptime clock starts again after a report of `days` days.
pub fn should_rebaseline(days: u64) -> (r: bool)
    ensures
        r == (days > REBASELINE_DAYS),
{
    days > REBASELINE_DAYS
}

/// Outcome counts over one report interval.
#[derive(Clone, Copy, Debug, PartialEq, Eq, Structural)]
pub struct CounterSnapshot {
    pub success: u64,
    pub rate_limited: u64,
    pub forbidden: u64,
    pub errors: u64,
}

impl CounterSnapshot {
    /// Requests that got a classified status: successes, throttles and denials.
    pub fn classified_total(&self) -> (r: Option<u64>)
        ensures
            match r {
                Some(t) => t == self.success + self.rate_limited + self.forbidden,
                None => self.success + self.rate_limited + self.forbidden > u64::MAX,
            },
    {
        match self.success.checked_add(self.rate_limited) {
            Some(s) => s.checked_add(self.forbidden),
            None => None,
        }
    }
}

} // verus!
