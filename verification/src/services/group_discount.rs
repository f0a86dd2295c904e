//! Group discounts: creating, editing and switching them on and off.
use vstd::prelude::*;
use crate::clock::Timestamp;
use crate::models::group_discount::GroupDiscountEntity;
use crate::update::{given_or, given_or_keep, or_stored, unwrap_or_stored};

verus! {

/// A group discount to create.
#[derive(Debug, Clone)]
pub struct CreateGroupDiscountRequest {
    pub name: String,
    pub code: String,
    pub min_quantity: u32,
    pub free_quantity: u32,
    pub valid_until: Option<Timestamp>,
}

/// Changes to a group discount; fields left out are kept.
#[derive(Debug, Clone)]
pub struct UpdateGroupDiscountRequest {
    pub name: Option<String>,
    pub min_quantity: Option<u32>,
    pub free_quantity: Option<u32>,
    pub valid_until: Option<Timestamp>,
}

/// The group discount service; it works through the discount store `R`.
pub struct GroupDiscountServiceImpl<R> {
    group_discount_repo: R,
}

impl<R> GroupDiscountServiceImpl<R> {
    /// The store the service reads and writes through.
    pub closed spec fn spec_group_discount_repo(&self) -> R {
        self.group_discount_repo
    }

    /// A service working through the given store.
    pub fn new(group_discount_repo: R) -> (r: Self)
        ensures
            r.spec_group_discount_repo() == group_discount_repo,
    {
        GroupDiscountServiceImpl { group_discount_repo }
    }

    /// The store the service reads and writes through.
    pub fn group_discount_repo(&self) -> (r: &R)
        ensures
            *r == self.spec_group_discount_repo(),
    {
        &self.group_discount_repo
    }
}

/// The discount to store for a creation request: it starts switched off.
pub fn new_group_discount(dto: CreateGroupDiscountRequest, now: Timestamp) -> (r: GroupDiscountEntity)
    ensures
        r == (GroupDiscountEntity {
            id: 0,
            code: dto.code,
            name: dto.name,
            min_quantity: dto.min_quantity,
            free_quantity: dto.free_quantity,
            active: 0,
            valid_until: dto.valid_until,
            created_at: now,
            updated_at: now,
        }),
{
    GroupDiscountEntity {
        id: 0,
        code: dto.code,
        name: dto.name,
        min_quantity: dto.min_quantity,
        free_quantity: dto.free_quantity,
        active: 0,
        valid_until: dto.valid_until,
        created_at: now,
        updated_at: now,
    }
}

/// The stored discount with the requested changes, under the given id.  The
/// number of free places is taken from the request's minimum quantity when
/// one is given (the requested number of free places is not read).
pub fn updated_group_discount(id: u64, stored: GroupDiscountEntity, dto: UpdateGroupDiscountRequest, now: Timestamp) -> (r:
    GroupDiscountEntity)
    ensures
        r == (GroupDiscountEntity {
            id,
            name: given_or_keep(dto.name, stored.name),
            min_quantity: given_or_keep(dto.min_quantity, stored.min_quantity),
            free_quantity: given_or_keep(dto.min_quantity, stored.free_quantity),
            valid_until: given_or(dto.valid_until, stored.valid_until),
            updated_at: now,
            ..stored
        }),
{
    GroupDiscountEntity {
        id,
        name: unwrap_or_stored(dto.name, stored.name),
        min_quantity: unwrap_or_stored(dto.min_quantity, stored.min_quantity),
        free_quantity: unwrap_or_stored(dto.min_quantity, stored.free_quantity),
        valid_until: or_stored(dto.valid_until, stored.valid_until),
        updated_at: now,
        ..stored
    }
}

/// The flag after a toggle: every bit of the stored flag inverted.
pub open spec fn toggled(active: i8) -> i8 {
    !active
}

/// The stored discount switched over: its flag is inverted bit by bit.
pub fn toggled_group_discount(stored: GroupDiscountEntity, now: Timestamp) -> (r: GroupDiscountEntity)
    ensures
        r == (GroupDiscountEntity { active: toggled(stored.active), updated_at: now, ..stored }),
{
    let active = !stored.active;
    GroupDiscountEntity { active, updated_at: now, ..stored }
}

/// Toggling twice gives back the flag a discount had, and a single toggle
/// always changes it: a discount stored as off (zero) reads as on after one.
pub proof fn toggle_twice_restores(active: i8)
    ensures
        toggled(toggled(active)) == active,
        toggled(active) != active,
        active == 0 ==> toggled(active) != 0,
{
    assert(!(!active) == active) by (bit_vector);
    assert(!active != active) by (bit_vector);
    assert(active == 0 ==> !active != 0) by (bit_vector);
}

} // verus!
