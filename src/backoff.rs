//! The reconnect wait: a fixed base, or, in the adaptive mode, half the time
//! left until three minutes before the top of the hour when that is longer.
use vstd::prelude::*;
use chrono::Timelike;

verus! {

/// A local wall-clock reading, within its hour.
#[derive(Clone, Copy, Debug, PartialEq, Eq, Structural)]
pub struct TimeOfHour {
    pub minute: u32,
    pub second: u32,
    /// Nanoseconds within the second; from one billion on, a leap second.
    pub nanosecond: u32,
}

pub const NANOS_PER_MILLI: u64 = 1_000_000;

/// Fifty-seven minutes past the hour, in nanoseconds.
pub const ANCHOR_NANOS: u64 = 3_420_000_000_000;

impl TimeOfHour {
    pub open spec fn wf(&self) -> bool {
        &&& self.minute < 60
        &&& self.second < 60
        &&& self.nanosecond < 2_000_000_000
    }

    /// Nanoseconds since the top of the hour.
    pub open spec fn offset(&self) -> int {
        self.minute * 60_000_000_000 + self.second * 1_000_000_000 + self.nanosecond
    }
}

/// Nanoseconds from `now` to the anchor three minutes before the next hour;
/// negative once it has passed.
pub open spec fn to_anchor(now: TimeOfHour) -> int {
    ANCHOR_NANOS - now.offset()
}

/// The adaptive wait for a base wait of `base` nanoseconds: half the time to
/// the anchor, rounded up, where that is longer than the base.
pub open spec fn adaptive_wait(base: int, now: TimeOfHour) -> int {
    let left = to_anchor(now);
    if left < 0 {
        base
    } else if (left + 1) / 2 > base {
        (left + 1) / 2
    } else {
        base
    }
}

/// The adaptive wait, in nanoseconds, for a base wait of `base` nanoseconds.
pub fn adaptive_delay(base: u64, now: TimeOfHour) -> (r: u64)
    requires
        now.wf(),
    ensures
        r == adaptive_wait(base as int, now),
{
    let offset: u64 = now.minute as u64 * 60_000_000_000 + now.second as u64 * 1_000_000_000
        + now.nanosecond as u64;
    if offset > ANCHOR_NANOS {
        base
    } else {
        let half = (ANCHOR_NANOS - offset + 1) / 2;
        if half > base {
            half
        } else {
            base
        }
    }
}

/// Relies on `chrono::Local::now` and `chrono::Timelike`: minutes and seconds
/// below sixty, nanoseconds below two billion (a leap second reaches past one
/// billion).
#[verifier::external_body]
pub(crate) fn local_time_of_hour() -> (r: TimeOfHour)
    ensures
        r.wf(),
{
    let now = chrono::Local::now();
    TimeOfHour { minute: now.minute(), second: now.second(), nanosecond: now.nanosecond() }
}

/// Where the anchor is more than twice the base wait away, the adaptive wait
/// is longer than the base; once the anchor has passed, it
/// is the base itself.
pub proof fn adaptive_wait_law(base: int, now: TimeOfHour)
    requires
        now.wf(),
        base >= 0,
    ensures
        to_anchor(now) > 2 * base ==> adaptive_wait(base, now) > base,
        to_anchor(now) < 0 ==> adaptive_wait(base, now) == base,
{
}

} // verus!
