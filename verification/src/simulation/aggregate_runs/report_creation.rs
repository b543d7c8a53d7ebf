use vstd::prelude::*;

verus! {

/// The milliseconds in a second, a minute and an hour.
pub const MILLISECONDS_PER_SECOND: u128 = 1_000;

pub const MILLISECONDS_PER_MINUTE: u128 = 60_000;

pub const MILLISECONDS_PER_HOUR: u128 = 3_600_000;

/// A duration as it is reported: whole hours, then minutes, seconds and
/// milliseconds, each below the next unit.
#[derive(Clone, Copy, Debug, PartialEq, Eq, Structural)]
pub struct DurationParts {
    pub hours: u128,
    pub minutes: u128,
    pub seconds: u128,
    pub milliseconds: u128,
}

impl DurationParts {
    /// The duration in milliseconds.
    pub open spec fn total(self) -> int {
        self.hours * MILLISECONDS_PER_HOUR + self.minutes * MILLISECONDS_PER_MINUTE + self.seconds
            * MILLISECONDS_PER_SECOND + self.milliseconds
    }

    /// Minutes, seconds and milliseconds are each below the next unit.
    pub open spec fn is_normal(self) -> bool {
        self.minutes < 60 && self.seconds < 60 && self.milliseconds < 1000
    }
}

/// Breaks a duration in milliseconds down into hours, minutes, seconds and
/// milliseconds.
pub fn split_duration(total_milliseconds: u128) -> (parts: DurationParts)
    ensures
        parts.total() == total_milliseconds,
        parts.is_normal(),
{
    let hours = total_milliseconds / MILLISECONDS_PER_HOUR;
    let minutes = (total_milliseconds % MILLISECONDS_PER_HOUR) / MILLISECONDS_PER_MINUTE;
    let seconds = (total_milliseconds % MILLISECONDS_PER_MINUTE) / MILLISECONDS_PER_SECOND;
    let milliseconds = total_milliseconds % MILLISECONDS_PER_SECOND;
    DurationParts { hours, minutes, seconds, milliseconds }
}

/// Two durations broken down in this way are the same duration only if all
/// their parts agree.
pub proof fn lemma_parts_unique(first: DurationParts, second: DurationParts)
    requires
        first.is_normal(),
        second.is_normal(),
        first.total() == second.total(),
    ensures
        first == second,
{
}

} // verus!
