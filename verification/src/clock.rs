//! Instants and the hour of day.
//!
//! The selector compares hours of day and nothing finer. An instant is held
//! as seconds since the start of 1970 in UTC; the hour of day is read in the
//! zone of the invocation, given as its offset from UTC in seconds.

use vstd::arithmetic::div_mod::lemma_mod_multiples_vanish;
use vstd::prelude::*;

verus! {

/// "Now": an instant together with the zone in which its hour is read.
#[derive(Debug, PartialEq, Eq, Structural, Clone, Copy)]
pub struct ZonedInstant {
    /// Seconds since 1970-01-01T00:00:00Z, leap seconds not counted.
    pub epoch_seconds: i64,
    /// Seconds that local time is ahead of UTC.
    pub offset_seconds: i32,
}

/// The hour, from 0 to 23, that a clock `offset_seconds` ahead of UTC shows
/// at the instant `epoch_seconds`.
pub open spec fn hour_of_day(epoch_seconds: int, offset_seconds: int) -> int {
    ((epoch_seconds + offset_seconds) % 86400) / 3600
}

/// The hour of day at an instant, read in a zone.
pub fn hour_at(epoch_seconds: i64, offset_seconds: i32) -> (hour: u32)
    ensures
        hour == hour_of_day(epoch_seconds as int, offset_seconds as int),
        hour < 24,
{
    let local: i128 = epoch_seconds as i128 + offset_seconds as i128;
    // A whole number of days, large enough to lift any local time above zero.
    let lift: i128 = 86400 * 200_000_000_000_000;
    let lifted: i128 = local + lift;
    proof {
        lemma_mod_multiples_vanish(200_000_000_000_000, local as int, 86400);
    }
    let second_of_day: i128 = lifted % 86400;
    (second_of_day / 3600) as u32
}

impl ZonedInstant {
    /// The hour of day that this instant shows in its own zone.
    pub open spec fn spec_hour(&self) -> int {
        hour_of_day(self.epoch_seconds as int, self.offset_seconds as int)
    }

    /// The hour of day, from 0 to 23, in the instant's own zone.
    pub fn hour(&self) -> (hour: u32)
        ensures
            hour == self.spec_hour(),
            hour < 24,
    {
        hour_at(self.epoch_seconds, self.offset_seconds)
    }

    /// Whether the instant `epoch_seconds` falls in the same hour of day as
    /// this one, both read in this one's zone.
    pub open spec fn spec_same_hour(&self, epoch_seconds: int) -> bool {
        hour_of_day(epoch_seconds, self.offset_seconds as int) == self.spec_hour()
    }

    /// Whether the instant `epoch_seconds` falls in the same hour of day as
    /// this one, both read in this one's zone.
    pub fn same_hour(&self, epoch_seconds: i64) -> (same: bool)
        ensures
            same == self.spec_same_hour(epoch_seconds as int),
    {
        hour_at(epoch_seconds, self.offset_seconds) == self.hour()
    }
}

} // verus!
