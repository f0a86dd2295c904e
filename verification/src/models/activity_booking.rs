//! Bookings of a participant on an activity.
use vstd::prelude::*;
use crate::clock::Timestamp;
use crate::text::str_equals;

verus! {

/// Where a booking stands.
#[derive(Debug, Clone, Copy, PartialEq, Eq, Structural)]
pub enum BookingStatus {
    Reserved,
    Confirmed,
    Cancelled,
}

impl BookingStatus {
    /// The name under which the status is stored.
    pub open spec fn spec_name(self) -> Seq<char> {
        match self {
            BookingStatus::Reserved => "reserved"@,
            BookingStatus::Confirmed => "confirmed"@,
            BookingStatus::Cancelled => "cancelled"@,
        }
    }

    /// The status stored under a name, if any.
    pub open spec fn spec_parse(s: Seq<char>) -> Result<BookingStatus, ()> {
        if s == "reserved"@ {
            Ok(BookingStatus::Reserved)
        } else if s == "confirmed"@ {
            Ok(BookingStatus::Confirmed)
        } else if s == "cancelled"@ {
            Ok(BookingStatus::Cancelled)
        } else {
            Err(())
        }
    }

    /// The name under which the status is stored.
    pub fn as_str(&self) -> (r: &'static str)
        ensures
            r@ == self.spec_name(),
    {
        match self {
            BookingStatus::Reserved => "reserved",
            BookingStatus::Confirmed => "confirmed",
            BookingStatus::Cancelled => "cancelled",
        }
    }

    /// Reads a stored name back; any other text is refused.
    pub fn try_from(s: &str) -> (r: Result<BookingStatus, ()>)
        ensures
            r == BookingStatus::spec_parse(s@),
    {
        if str_equals(s, "reserved") {
            Ok(BookingStatus::Reserved)
        } else if str_equals(s, "confirmed") {
            Ok(BookingStatus::Confirmed)
        } else if str_equals(s, "cancelled") {
            Ok(BookingStatus::Cancelled)
        } else {
            Err(())
        }
    }
}

/// Reading back the stored name of a booking status gives the same status.
pub proof fn booking_status_name_round_trip(status: BookingStatus)
    ensures
        BookingStatus::spec_parse(status.spec_name()) == Ok::<BookingStatus, ()>(status),
{
    reveal_strlit("reserved");
    reveal_strlit("confirmed");
    reveal_strlit("cancelled");
    assert("reserved"@.len() != "confirmed"@.len());
    assert("reserved"@.len() != "cancelled"@.len());
    assert("confirmed"@[1] != "cancelled"@[1]);
}

/// A participant's booking on an activity.
#[derive(Debug, Clone)]
pub struct ActivityBooking {
    pub id: u64,
    pub activity_id: u64,
    pub participant_id: u64,
    pub status: BookingStatus,
    pub created_at: Timestamp,
    pub updated_at: Timestamp,
}

} // verus!
