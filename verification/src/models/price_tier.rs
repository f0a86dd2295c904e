//! Price tiers: the price of a delegate place until a deadline.
use vstd::prelude::*;
use vstd::std_specs::convert::FromSpec;
use crate::clock::{Date, Timestamp, today_utc, CALENDAR_LIMIT_DAYS};
use crate::money::Money;

verus! {

/// A price tier as stored.
#[derive(Debug, Clone)]
pub struct PriceTierEntity {
    pub id: u64,
    pub conference_id: u64,
    pub price: Money,
    pub deadline: Date,
    pub created_at: Timestamp,
    pub updated_at: Timestamp,
}

/// The price of a place while the deadline has not passed.
#[derive(Debug, Clone)]
pub struct PriceTier {
    pub id: u64,
    pub conference_id: u64,
    pub price: Money,
    pub deadline: Date,
    pub created_at: Timestamp,
    pub updated_at: Timestamp,
}

impl PriceTier {
    /// Whether, on day `today`, the deadline has not passed yet: the day
    /// itself still counts.  (The answer is `true` while the tier can still
    /// be used.)
    pub fn is_expired_on(&self, today: Date) -> (r: bool)
        ensures
            r == today.spec_not_after(self.deadline),
    {
        today.days_from_ce <= self.deadline.days_from_ce
    }

    /// `is_expired_on` for the current day in UTC, read from the clock: the
    /// answer for whatever day the clock gives, which lies in `chrono`'s
    /// calendar.  So a deadline past the end of that calendar always counts
    /// as not passed, and one before its start always as passed.
    pub fn is_expired(&self) -> (r: bool)
        ensures
            exists|today: Date|
                -CALENDAR_LIMIT_DAYS <= today.days_from_ce <= CALENDAR_LIMIT_DAYS && r
                    == #[trigger] today.spec_not_after(self.deadline),
            self.deadline.days_from_ce >= CALENDAR_LIMIT_DAYS ==> r,
            self.deadline.days_from_ce < -CALENDAR_LIMIT_DAYS ==> !r,
    {
        let today = today_utc();
        self.is_expired_on(today)
    }
}

impl From<PriceTierEntity> for PriceTier {
    fn from(e: PriceTierEntity) -> (r: PriceTier) {
        PriceTier {
            id: e.id,
            conference_id: e.conference_id,
            price: e.price,
            deadline: e.deadline,
            created_at: e.created_at,
            updated_at: e.updated_at,
        }
    }
}

impl vstd::std_specs::convert::FromSpecImpl<PriceTierEntity> for PriceTier {
    open spec fn obeys_from_spec() -> bool {
        true
    }

    /// Every field is kept.
    open spec fn from_spec(e: PriceTierEntity) -> PriceTier {
        tier_shown(e)
    }
}

/// A stored tier as shown: every field is kept.
pub open spec fn tier_shown(e: PriceTierEntity) -> PriceTier {
    PriceTier {
        id: e.id,
        conference_id: e.conference_id,
        price: e.price,
        deadline: e.deadline,
        created_at: e.created_at,
        updated_at: e.updated_at,
    }
}

/// The stored tiers as shown, one for one and in the same order.
pub fn price_tiers_shown(stored: Vec<PriceTierEntity>) -> (r: Vec<PriceTier>)
    ensures
        r@.len() == stored@.len(),
        forall|i: int| 0 <= i < r@.len() ==> #[trigger] r@[i] == tier_shown(stored@[i]),
{
    let ghost s0 = stored@;
    let mut rest = stored;
    let mut rev: Vec<PriceTierEntity> = Vec::new();
    while rest.len() > 0
        invariant
            rest@.len() + rev@.len() == s0.len(),
            forall|i: int| 0 <= i < rest@.len() ==> #[trigger] rest@[i] == s0[i],
            forall|j: int| 0 <= j < rev@.len() ==> #[trigger] rev@[j] == s0[s0.len() - 1 - j],
        decreases rest@.len(),
    {
        let e = rest.pop().unwrap();
        rev.push(e);
    }
    let mut out: Vec<PriceTier> = Vec::new();
    while rev.len() > 0
        invariant
            rev@.len() + out@.len() == s0.len(),
            forall|j: int| 0 <= j < rev@.len() ==> #[trigger] rev@[j] == s0[s0.len() - 1 - j],
            forall|i: int| 0 <= i < out@.len() ==> #[trigger] out@[i] == tier_shown(s0[i]),
        decreases rev@.len(),
    {
        let e = rev.pop().unwrap();
        out.push(PriceTier::from(e));
    }
    out
}

/// A price tier reads back with every stored field.
pub proof fn price_tier_read_back(e: PriceTierEntity)
    ensures
        <PriceTier as FromSpec<PriceTierEntity>>::obeys_from_spec(),
        ({
            let r = <PriceTier as FromSpec<PriceTierEntity>>::from_spec(e);
            &&& r.id == e.id
            &&& r.conference_id == e.conference_id
            &&& r.price == e.price
            &&& r.deadline == e.deadline
            &&& r.created_at == e.created_at
            &&& r.updated_at == e.updated_at
        }),
{
}

} // verus!
