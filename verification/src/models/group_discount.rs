//! Group discounts ("3 for 2"): with at least `min_quantity` delegates,
//! `free_quantity` places are free.
use vstd::prelude::*;
use vstd::std_specs::convert::FromSpec;
use crate::clock::Timestamp;

verus! {

/// A group discount as stored; `active` is a flag, zero meaning "off".
#[derive(Debug, Clone)]
pub struct GroupDiscountEntity {
    pub id: u64,
    pub code: String,
    pub name: String,
    pub min_quantity: u32,
    pub free_quantity: u32,
    pub active: i8,
    pub valid_until: Option<Timestamp>,
    pub created_at: Timestamp,
    pub updated_at: Timestamp,
}

impl GroupDiscountEntity {
    /// Whether the discount is switched on: the flag is set.
    pub fn is_active(&self) -> (r: bool)
        ensures
            r == (self.active != 0),
    {
        self.active != 0
    }
}

/// A group discount; `is_active` tells whether it is switched on.
#[derive(Debug, Clone)]
pub struct GroupDiscount {
    pub id: u64,
    pub code: String,
    pub name: String,
    pub min_quantity: u32,
    pub free_quantity: u32,
    pub is_active: bool,
    pub valid_until: Option<Timestamp>,
    pub created_at: Timestamp,
    pub updated_at: Timestamp,
}

impl From<GroupDiscountEntity> for GroupDiscount {
    fn from(e: GroupDiscountEntity) -> (r: GroupDiscount) {
        GroupDiscount {
            id: e.id,
            code: e.code,
            name: e.name,
            min_quantity: e.min_quantity,
            free_quantity: e.free_quantity,
            is_active: e.active != 0,
            valid_until: e.valid_until,
            created_at: e.created_at,
            updated_at: e.updated_at,
        }
    }
}

impl vstd::std_specs::convert::FromSpecImpl<GroupDiscountEntity> for GroupDiscount {
    open spec fn obeys_from_spec() -> bool {
        true
    }

    /// The flag reads as on when it is not zero; the rest is kept.
    open spec fn from_spec(e: GroupDiscountEntity) -> GroupDiscount {
        GroupDiscount {
            id: e.id,
            code: e.code,
            name: e.name,
            min_quantity: e.min_quantity,
            free_quantity: e.free_quantity,
            is_active: e.active != 0,
            valid_until: e.valid_until,
            created_at: e.created_at,
            updated_at: e.updated_at,
        }
    }
}

/// A group discount reads back with its stored fields; it is active exactly
/// when its flag is not zero.
pub proof fn group_discount_read_back(e: GroupDiscountEntity)
    ensures
        <GroupDiscount as FromSpec<GroupDiscountEntity>>::obeys_from_spec(),
        ({
            let r = <GroupDiscount as FromSpec<GroupDiscountEntity>>::from_spec(e);
            &&& r.id == e.id
            &&& r.code == e.code
            &&& r.name == e.name
            &&& r.min_quantity == e.min_quantity
            &&& r.free_quantity == e.free_quantity
            &&& r.valid_until == e.valid_until
            &&& r.created_at == e.created_at
            &&& r.updated_at == e.updated_at
            &&& r.is_active == (e.active != 0)
        }),
{
}

} // verus!
