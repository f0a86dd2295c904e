//! Points in time and calendar days, held as plain numbers, and the clock.
use vstd::prelude::*;
use chrono::Datelike;

verus! {

/// An instant: whole seconds since the Unix epoch and the nanoseconds past
/// them (up to two seconds' worth during a leap second).
#[derive(Clone, Copy, Debug, PartialEq, Eq, Structural)]
pub struct Timestamp {
    pub secs: i64,
    pub nanos: u32,
}

/// A calendar day, counted as days since the start of the common era
/// (1 January of year 1 is day 1).
#[derive(Clone, Copy, Debug, PartialEq, Eq, Structural)]
pub struct Date {
    pub days_from_ce: i32,
}

impl Timestamp {
    /// `self` comes strictly after `other`.
    pub open spec fn spec_after(self, other: Timestamp) -> bool {
        self.secs > other.secs || (self.secs == other.secs && self.nanos > other.nanos)
    }

    /// `self` comes strictly after `other`.
    pub fn is_after(&self, other: &Timestamp) -> (r: bool)
        ensures
            r == self.spec_after(*other),
    {
        self.secs > other.secs || (self.secs == other.secs && self.nanos > other.nanos)
    }
}

impl Date {
    /// `self` is the same day as `other` or an earlier one.
    pub open spec fn spec_not_after(self, other: Date) -> bool {
        self.days_from_ce <= other.days_from_ce
    }
}

/// A bound on the day numbers of the calendar `chrono` can hold: its dates
/// run from 262144 BCE to 262142 CE, fewer than 96 million days either side
/// of the start of the common era.
pub const CALENDAR_LIMIT_DAYS: i32 = 96_000_000i32;

/// `chrono::Utc::now().date_naive()`: the current day in UTC.  Claimed only
/// that it is a day of `chrono`'s calendar (`NaiveDate::MIN` to
/// `NaiveDate::MAX`); which day it is depends on the clock.
#[verifier::external_body]
pub(crate) fn today_utc() -> (r: Date)
    ensures
        -CALENDAR_LIMIT_DAYS <= r.days_from_ce <= CALENDAR_LIMIT_DAYS,
{
    Date { days_from_ce: chrono::Utc::now().date_naive().num_days_from_ce() }
}

} // verus!
