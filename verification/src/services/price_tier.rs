//! Price tiers of a conference, created in bulk.
use vstd::prelude::*;
use crate::clock::{Date, Timestamp};
use crate::models::price_tier::PriceTierEntity;
use crate::money::Money;

verus! {

/// A price tier to create.
#[derive(Debug, Clone, Copy)]
pub struct CreatePriceTierRequest {
    pub price: Money,
    pub deadline: Date,
}

/// The tier stored for a request.
pub open spec fn tier_for(conference_id: u64, req: CreatePriceTierRequest, now: Timestamp) -> PriceTierEntity {
    PriceTierEntity {
        id: 0,
        conference_id,
        price: req.price,
        deadline: req.deadline,
        created_at: now,
        updated_at: now,
    }
}

/// The tiers to store for a conference, one per request in the same order,
/// all stamped with the same time.
pub fn new_price_tiers(conference_id: u64, requests: Vec<CreatePriceTierRequest>, now: Timestamp) -> (r: Vec<
    PriceTierEntity,
>)
    ensures
        r@.len() == requests@.len(),
        forall|i: int| 0 <= i < r@.len() ==> #[trigger] r@[i] == tier_for(conference_id, requests@[i], now),
{
    let mut out: Vec<PriceTierEntity> = Vec::new();
    let mut i: usize = 0;
    while i < requests.len()
        invariant
            i <= requests@.len(),
            out@.len() == i,
            forall|j: int| 0 <= j < i ==> #[trigger] out@[j] == tier_for(conference_id, requests@[j], now),
        decreases requests@.len() - i,
    {
        let req = requests[i];
        out.push(
            PriceTierEntity {
                id: 0,
                conference_id,
                price: req.price,
                deadline: req.deadline,
                created_at: now,
                updated_at: now,
            },
        );
        i = i + 1;
    }
    out
}

} // verus!
