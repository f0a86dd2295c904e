//! Promotion codes: a percentage or a fixed amount off, with a use limit.
use vstd::prelude::*;
use crate::clock::Timestamp;
use crate::money::Money;

verus! {

/// How a promotion code reduces the price.
#[derive(Debug, Clone, Copy, PartialEq, Eq, Structural)]
pub enum DiscountType {
    Percentage,
    Fixed,
}

/// A promotion code of a conference.
#[derive(Debug, Clone)]
pub struct PromoCode {
    pub id: u64,
    pub conference_id: u64,
    pub code: String,
    pub discount_type: DiscountType,
    pub amount: Money,
    pub max_uses: Option<u32>,
    pub used_count: u32,
    pub valid_until: Option<Timestamp>,
}

} // verus!
