//! Registrations for a conference: their status, what they cost and what
//! has been paid.
use vstd::prelude::*;
use crate::clock::Timestamp;
use crate::money::Money;
use crate::text::str_equals;
use vstd::std_specs::convert::FromSpec;

verus! {

/// Where a registration stands in the selection of attendees.
#[derive(Debug, Clone, Copy, PartialEq, Eq, Structural)]
pub enum RegistrationStatus {
    Submitted,
    Accepted,
    Waitlisted,
    Rejected,
    Withdrawn,
}

impl RegistrationStatus {
    /// The name under which the status is stored.
    pub open spec fn spec_name(self) -> Seq<char> {
        match self {
            RegistrationStatus::Submitted => "submitted"@,
            RegistrationStatus::Accepted => "accepted"@,
            RegistrationStatus::Waitlisted => "waitlisted"@,
            RegistrationStatus::Rejected => "rejected"@,
            RegistrationStatus::Withdrawn => "withdrawn"@,
        }
    }

    /// The status stored under a name, if any.
    pub open spec fn spec_parse(s: Seq<char>) -> Result<RegistrationStatus, ()> {
        if s == "submitted"@ {
            Ok(RegistrationStatus::Submitted)
        } else if s == "accepted"@ {
            Ok(RegistrationStatus::Accepted)
        } else if s == "waitlisted"@ {
            Ok(RegistrationStatus::Waitlisted)
        } else if s == "rejected"@ {
            Ok(RegistrationStatus::Rejected)
        } else if s == "withdrawn"@ {
            Ok(RegistrationStatus::Withdrawn)
        } else {
            Err(())
        }
    }

    /// The status stored under a name, or `Submitted` for any other text.
    pub open spec fn spec_parse_or_submitted(s: Seq<char>) -> RegistrationStatus {
        match RegistrationStatus::spec_parse(s) {
            Ok(r) => r,
            Err(_) => RegistrationStatus::Submitted,
        }
    }

    /// The moves a registration may make: a submitted one may be accepted,
    /// waitlisted, rejected or withdrawn; a waitlisted one accepted or
    /// withdrawn; an accepted one withdrawn.  Nothing else.
    pub open spec fn spec_can_transition_to(self, next: RegistrationStatus) -> bool {
        match (self, next) {
            (RegistrationStatus::Submitted, RegistrationStatus::Accepted) => true,
            (RegistrationStatus::Submitted, RegistrationStatus::Waitlisted) => true,
            (RegistrationStatus::Submitted, RegistrationStatus::Rejected) => true,
            (RegistrationStatus::Submitted, RegistrationStatus::Withdrawn) => true,
            (RegistrationStatus::Waitlisted, RegistrationStatus::Accepted) => true,
            (RegistrationStatus::Waitlisted, RegistrationStatus::Withdrawn) => true,
            (RegistrationStatus::Accepted, RegistrationStatus::Withdrawn) => true,
            _ => false,
        }
    }

    /// How far along the selection a status is.
    pub open spec fn rank(self) -> int {
        match self {
            RegistrationStatus::Submitted => 0,
            RegistrationStatus::Waitlisted => 1,
            RegistrationStatus::Accepted => 2,
            RegistrationStatus::Rejected => 3,
            RegistrationStatus::Withdrawn => 3,
        }
    }

    /// The name under which the status is stored.
    pub fn as_str(&self) -> (r: &'static str)
        ensures
            r@ == self.spec_name(),
    {
        match self {
            RegistrationStatus::Submitted => "submitted",
            RegistrationStatus::Accepted => "accepted",
            RegistrationStatus::Waitlisted => "waitlisted",
            RegistrationStatus::Rejected => "rejected",
            RegistrationStatus::Withdrawn => "withdrawn",
        }
    }

    /// Whether a registration in this status may move to `next`.
    pub fn can_transition_to(&self, next: &RegistrationStatus) -> (r: bool)
        ensures
            r == self.spec_can_transition_to(*next),
    {
        match (self, next) {
            (RegistrationStatus::Submitted, RegistrationStatus::Accepted) => true,
            (RegistrationStatus::Submitted, RegistrationStatus::Waitlisted) => true,
            (RegistrationStatus::Submitted, RegistrationStatus::Rejected) => true,
            (RegistrationStatus::Submitted, RegistrationStatus::Withdrawn) => true,
            (RegistrationStatus::Waitlisted, RegistrationStatus::Accepted) => true,
            (RegistrationStatus::Waitlisted, RegistrationStatus::Withdrawn) => true,
            (RegistrationStatus::Accepted, RegistrationStatus::Withdrawn) => true,
            _ => false,
        }
    }

    /// Reads a stored name back; any other text is refused.
    pub fn try_from(s: &str) -> (r: Result<RegistrationStatus, ()>)
        ensures
            r == RegistrationStatus::spec_parse(s@),
    {
        if str_equals(s, "submitted") {
            Ok(RegistrationStatus::Submitted)
        } else if str_equals(s, "accepted") {
            Ok(RegistrationStatus::Accepted)
        } else if str_equals(s, "waitlisted") {
            Ok(RegistrationStatus::Waitlisted)
        } else if str_equals(s, "rejected") {
            Ok(RegistrationStatus::Rejected)
        } else if str_equals(s, "withdrawn") {
            Ok(RegistrationStatus::Withdrawn)
        } else {
            Err(())
        }
    }
}

/// Reading back the stored name of a status gives the same status.
pub proof fn registration_status_name_round_trip(status: RegistrationStatus)
    ensures
        RegistrationStatus::spec_parse(status.spec_name()) == Ok::<RegistrationStatus, ()>(status),
{
    reveal_strlit("submitted");
    reveal_strlit("accepted");
    reveal_strlit("waitlisted");
    reveal_strlit("rejected");
    reveal_strlit("withdrawn");
    assert("submitted"@.len() != "accepted"@.len());
    assert("submitted"@.len() != "waitlisted"@.len());
    assert("submitted"@.len() != "rejected"@.len());
    assert("submitted"@[0] != "withdrawn"@[0]);
    assert("accepted"@.len() != "waitlisted"@.len());
    assert("accepted"@[0] != "rejected"@[0]);
    assert("accepted"@.len() != "withdrawn"@.len());
    assert("waitlisted"@.len() != "rejected"@.len());
    assert("waitlisted"@.len() != "withdrawn"@.len());
    assert("rejected"@.len() != "withdrawn"@.len());
}

/// Every allowed move leads further along the selection, so a registration
/// never returns to a status it has left, and no status moves to itself.
pub proof fn transitions_move_forward(from: RegistrationStatus, to: RegistrationStatus)
    requires
        from.spec_can_transition_to(to),
    ensures
        from.rank() < to.rank(),
        from != to,
{
}

/// Rejected and withdrawn registrations are final: they may not move.
pub proof fn rejected_and_withdrawn_are_final(to: RegistrationStatus)
    ensures
        !RegistrationStatus::Rejected.spec_can_transition_to(to),
        !RegistrationStatus::Withdrawn.spec_can_transition_to(to),
{
}

/// No registration can be moved back to `Submitted`: it is only ever the
/// status a registration starts in.
pub proof fn nothing_returns_to_submitted(from: RegistrationStatus)
    ensures
        !from.spec_can_transition_to(RegistrationStatus::Submitted),
{
}

/// Until it is rejected or withdrawn, a registration may always be withdrawn.
pub proof fn withdrawal_open_until_final(from: RegistrationStatus)
    requires
        from != RegistrationStatus::Rejected,
        from != RegistrationStatus::Withdrawn,
    ensures
        from.spec_can_transition_to(RegistrationStatus::Withdrawn),
{
}

/// How much of a registration has been paid.
#[derive(Debug, Clone, Copy, PartialEq, Eq, Structural)]
pub enum PaymentStatus {
    Unpaid,
    Partial,
    Paid,
}

/// A registration as stored: the status is kept as its name.
#[derive(Debug)]
pub struct RegistrationEntity {
    pub id: u64,
    pub conference_id: u64,
    pub status: String,
    pub cost: Money,
    pub discount_code: Option<String>,
    pub discount_amount: Money,
    pub amount_paid: Money,
    pub created_by_id: Option<u64>,
    pub referrer: Option<String>,
    pub notes_internal: Option<String>,
    pub created_at: Timestamp,
    pub updated_at: Timestamp,
}

/// A registration of one or more participants for a conference.
#[derive(Debug)]
pub struct Registration {
    pub id: u64,
    pub conference_id: u64,
    pub status: RegistrationStatus,
    pub cost: Money,
    pub discount_code: Option<String>,
    pub discount_amount: Money,
    pub amount_paid: Money,
    pub created_by_id: Option<u64>,
    pub notes_internal: Option<String>,
    pub created_at: Timestamp,
    pub updated_at: Timestamp,
}

/// What has been paid against what is owed.
pub open spec fn spec_payment_status(amount_paid: Money, cost: Money) -> PaymentStatus {
    if amount_paid.mantissa == 0 {
        PaymentStatus::Unpaid
    } else if amount_paid.spec_ge(cost) {
        PaymentStatus::Paid
    } else {
        PaymentStatus::Partial
    }
}

impl Registration {
    /// Nothing paid is unpaid; at least the cost is paid; anything between is
    /// partial.
    pub fn payment_status(&self) -> (r: PaymentStatus)
        requires
            self.amount_paid.wf(),
            self.cost.wf(),
        ensures
            r == spec_payment_status(self.amount_paid, self.cost),
    {
        if self.amount_paid.is_zero() {
            PaymentStatus::Unpaid
        } else if self.amount_paid.ge(&self.cost) {
            PaymentStatus::Paid
        } else {
            PaymentStatus::Partial
        }
    }
}

impl From<RegistrationEntity> for Registration {
    fn from(e: RegistrationEntity) -> (r: Registration) {
        let status = match RegistrationStatus::try_from(e.status.as_str()) {
            Ok(s) => s,
            Err(_) => RegistrationStatus::Submitted,
        };
        Registration {
            id: e.id,
            conference_id: e.conference_id,
            status,
            cost: e.cost,
            discount_code: e.discount_code,
            discount_amount: e.discount_amount,
            amount_paid: e.amount_paid,
            created_by_id: e.created_by_id,
            notes_internal: e.notes_internal,
            created_at: e.created_at,
            updated_at: e.updated_at,
        }
    }
}

impl vstd::std_specs::convert::FromSpecImpl<RegistrationEntity> for Registration {
    open spec fn obeys_from_spec() -> bool {
        true
    }

    /// The fields are kept (the referrer is not part of the registration);
    /// a status name that is not known reads as `Submitted`.
    open spec fn from_spec(e: RegistrationEntity) -> Registration {
        registration_from_entity(e)
    }
}

/// The registration a stored one reads as: the fields are kept (the referrer
/// is not part of the registration); a status name that is not known reads
/// as `Submitted`.
pub open spec fn registration_from_entity(e: RegistrationEntity) -> Registration {
        Registration {
            id: e.id,
            conference_id: e.conference_id,
            status: RegistrationStatus::spec_parse_or_submitted(e.status@),
            cost: e.cost,
            discount_code: e.discount_code,
            discount_amount: e.discount_amount,
            amount_paid: e.amount_paid,
            created_by_id: e.created_by_id,
            notes_internal: e.notes_internal,
            created_at: e.created_at,
            updated_at: e.updated_at,
        }
}

/// Reading a stored registration back keeps what it records: the money
/// (cost, discount, amount paid), the discount code, the creator, the notes
/// and the times; a known status name reads as that status, and any other
/// as `Submitted`.
pub proof fn registration_read_back(e: RegistrationEntity)
    ensures
        <Registration as FromSpec<RegistrationEntity>>::obeys_from_spec(),
        ({
            let r = <Registration as FromSpec<RegistrationEntity>>::from_spec(e);
            &&& r.id == e.id
            &&& r.conference_id == e.conference_id
            &&& r.cost == e.cost
            &&& r.discount_amount == e.discount_amount
            &&& r.amount_paid == e.amount_paid
            &&& r.discount_code == e.discount_code
            &&& r.created_by_id == e.created_by_id
            &&& r.notes_internal == e.notes_internal
            &&& r.created_at == e.created_at
            &&& r.updated_at == e.updated_at
            &&& r.status.spec_name() == e.status@ || (r.status == RegistrationStatus::Submitted
                && RegistrationStatus::spec_parse(e.status@) is Err)
        }),
{
}

} // verus!
