//! Clock values without a date, and the delay until the next occurrence of one.

use vstd::prelude::*;

verus! {

/// Seconds in one day.
pub const SECONDS_PER_DAY: u64 = 86400;

/// A time of day with second precision; `wf` holds of every value the library hands out.
#[derive(Clone, Copy, Debug, PartialEq, Eq, Structural)]
pub struct TimeOfDay {
    pub hour: u8,
    pub minute: u8,
    pub second: u8,
}

/// Whether the three components name a time of day (00:00:00 to 23:59:59).
pub open spec fn valid_hms(hour: int, minute: int, second: int) -> bool {
    0 <= hour < 24 && 0 <= minute < 60 && 0 <= second < 60
}

/// The delay, in seconds, from `now` until the next occurrence of `target`:
/// later today when `now` is strictly before `target`, otherwise tomorrow.
pub open spec fn delay_secs(now: TimeOfDay, target: TimeOfDay) -> int {
    if now.secs() < target.secs() {
        target.secs() - now.secs()
    } else {
        target.secs() - now.secs() + SECONDS_PER_DAY
    }
}

impl TimeOfDay {
    pub open spec fn wf(self) -> bool {
        valid_hms(self.hour as int, self.minute as int, self.second as int)
    }

    /// Seconds elapsed since midnight.
    pub open spec fn secs(self) -> int {
        self.hour * 3600 + self.minute * 60 + self.second
    }

    /// The time of day `hour:minute:second`, or `None` when a component is out of range.
    pub fn from_hms(hour: u8, minute: u8, second: u8) -> (r: Option<TimeOfDay>)
        ensures
            r is Some <==> valid_hms(hour as int, minute as int, second as int),
            r matches Some(t) ==> t.wf() && t.hour == hour && t.minute == minute && t.second
                == second,
    {
        if hour < 24 && minute < 60 && second < 60 {
            Some(TimeOfDay { hour, minute, second })
        } else {
            None
        }
    }

    /// Seconds elapsed since midnight.
    pub fn seconds_of_day(&self) -> (r: u64)
        requires
            self.wf(),
        ensures
            r == self.secs(),
            r < SECONDS_PER_DAY,
    {
        self.hour as u64 * 3600 + self.minute as u64 * 60 + self.second as u64
    }
}

/// The delay in seconds from `now` until the next occurrence of `target`.
/// A target equal to `now` counts as already passed, so the delay is never zero.
pub fn duration_until(now: TimeOfDay, target: TimeOfDay) -> (r: u64)
    requires
        now.wf(),
        target.wf(),
    ensures
        r == delay_secs(now, target),
        0 < r <= SECONDS_PER_DAY,
{
    let n = now.seconds_of_day();
    let t = target.seconds_of_day();
    if n < t {
        t - n
    } else {
        t + SECONDS_PER_DAY - n
    }
}

} // verus!
