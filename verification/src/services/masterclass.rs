//! Masterclasses of a conference, their instructors and bookings.
use vstd::prelude::*;
use vstd::std_specs::convert::FromSpec;
use crate::clock::Timestamp;
use crate::update::{given_or, given_or_keep, or_stored, unwrap_or_stored};

verus! {
/// A masterclass as stored.
#[derive(Debug, Clone)]
pub struct MasterclassEntity {
    pub id: u64,
    pub conference_id: u64,
    pub name: String,
    pub description: Option<String>,
    pub start_at: Timestamp,
    pub end_at: Timestamp,
    pub venue_id: Option<u64>,
    pub capacity: Option<i32>,
    pub created_at: Timestamp,
    pub updated_at: Timestamp,
}

/// A masterclass to create.
#[derive(Debug, Clone)]
pub struct CreateMasterclassRequest {
    pub conference_id: u64,
    pub name: String,
    pub description: Option<String>,
    pub start_at: Timestamp,
    pub end_at: Timestamp,
    pub venue_id: Option<u64>,
    pub capacity: Option<i32>,
}

/// Changes to a masterclass; fields left out are kept.
#[derive(Debug, Clone)]
pub struct UpdateMasterclassRequest {
    pub name: Option<String>,
    pub description: Option<String>,
    pub start_at: Option<Timestamp>,
    pub end_at: Option<Timestamp>,
    pub venue_id: Option<u64>,
    pub capacity: Option<i32>,
}

/// The masterclass service; it works through the masterclass store `M`, the instructor store `I` and the booking store `B`.
pub struct MasterclassServiceImpl<M, I, B> {
    masterclass_repo: M,
    instructor_repo: I,
    booking_repo: B,
}

impl<M, I, B> MasterclassServiceImpl<M, I, B> {
    /// The store the service reads and writes through.
    pub closed spec fn spec_masterclass_repo(&self) -> M {
        self.masterclass_repo
    }

    /// The store the service reads and writes through.
    pub closed spec fn spec_instructor_repo(&self) -> I {
        self.instructor_repo
    }

    /// The store the service reads and writes through.
    pub closed spec fn spec_booking_repo(&self) -> B {
        self.booking_repo
    }

    /// A service working through the given stores.
    pub fn new(masterclass_repo: M, instructor_repo: I, booking_repo: B) -> (r: Self)
        ensures
            r.spec_masterclass_repo() == masterclass_repo,
            r.spec_instructor_repo() == instructor_repo,
            r.spec_booking_repo() == booking_repo,
    {
        MasterclassServiceImpl { masterclass_repo, instructor_repo, booking_repo }
    }

    /// The store the service reads and writes through.
    pub fn masterclass_repo(&self) -> (r: &M)
        ensures
            *r == self.spec_masterclass_repo(),
    {
        &self.masterclass_repo
    }

    /// The store the service reads and writes through.
    pub fn instructor_repo(&self) -> (r: &I)
        ensures
            *r == self.spec_instructor_repo(),
    {
        &self.instructor_repo
    }

    /// The store the service reads and writes through.
    pub fn booking_repo(&self) -> (r: &B)
        ensures
            *r == self.spec_booking_repo(),
    {
        &self.booking_repo
    }
}

/// The masterclass to store for a creation request.
pub fn new_masterclass(dto: CreateMasterclassRequest, now: Timestamp) -> (r: MasterclassEntity)
    ensures
        r == (MasterclassEntity {
            id: 0,
            conference_id: dto.conference_id,
            name: dto.name,
            description: dto.description,
            start_at: dto.start_at,
            end_at: dto.end_at,
            venue_id: dto.venue_id,
            capacity: dto.capacity,
            created_at: now,
            updated_at: now,
        }),
{
    MasterclassEntity {
        id: 0,
        conference_id: dto.conference_id,
        name: dto.name,
        description: dto.description,
        start_at: dto.start_at,
        end_at: dto.end_at,
        venue_id: dto.venue_id,
        capacity: dto.capacity,
        created_at: now,
        updated_at: now,
    }
}

/// The stored masterclass with the requested changes; fields left out are kept.
pub fn updated_masterclass(stored: MasterclassEntity, dto: UpdateMasterclassRequest, now: Timestamp) -> (r: MasterclassEntity)
    ensures
        r == (MasterclassEntity {
            name: given_or_keep(dto.name, stored.name),
            description: given_or(dto.description, stored.description),
            start_at: given_or_keep(dto.start_at, stored.start_at),
            end_at: given_or_keep(dto.end_at, stored.end_at),
            venue_id: given_or(dto.venue_id, stored.venue_id),
            capacity: given_or(dto.capacity, stored.capacity),
            updated_at: now,
            ..stored
        }),
{
    MasterclassEntity {
        name: unwrap_or_stored(dto.name, stored.name),
        description: or_stored(dto.description, stored.description),
        start_at: unwrap_or_stored(dto.start_at, stored.start_at),
        end_at: unwrap_or_stored(dto.end_at, stored.end_at),
        venue_id: or_stored(dto.venue_id, stored.venue_id),
        capacity: or_stored(dto.capacity, stored.capacity),
        updated_at: now,
        ..stored
    }
}

/// A masterclass of a conference.
#[derive(Debug, Clone)]
pub struct Masterclass {
    pub id: u64,
    pub conference_id: u64,
    pub name: String,
    pub description: Option<String>,
    pub start_at: Timestamp,
    pub end_at: Timestamp,
    pub venue_id: Option<u64>,
    pub capacity: Option<i32>,
    pub created_at: Timestamp,
    pub updated_at: Timestamp,
}

impl From<MasterclassEntity> for Masterclass {
    fn from(e: MasterclassEntity) -> (r: Masterclass) {
        Masterclass {
            id: e.id,
            conference_id: e.conference_id,
            name: e.name,
            description: e.description,
            start_at: e.start_at,
            end_at: e.end_at,
            venue_id: e.venue_id,
            capacity: e.capacity,
            created_at: e.created_at,
            updated_at: e.updated_at,
        }
    }
}

impl vstd::std_specs::convert::FromSpecImpl<MasterclassEntity> for Masterclass {
    open spec fn obeys_from_spec() -> bool {
        true
    }

    /// Every field is kept.
    open spec fn from_spec(e: MasterclassEntity) -> Masterclass {
        Masterclass {
            id: e.id,
            conference_id: e.conference_id,
            name: e.name,
            description: e.description,
            start_at: e.start_at,
            end_at: e.end_at,
            venue_id: e.venue_id,
            capacity: e.capacity,
            created_at: e.created_at,
            updated_at: e.updated_at,
        }
    }
}

/// A masterclass reads back with every stored field.
pub proof fn masterclass_read_back(e: MasterclassEntity)
    ensures
        <Masterclass as FromSpec<MasterclassEntity>>::obeys_from_spec(),
        ({
            let r = <Masterclass as FromSpec<MasterclassEntity>>::from_spec(e);
            &&& r.id == e.id
            &&& r.conference_id == e.conference_id
            &&& r.name == e.name
            &&& r.description == e.description
            &&& r.start_at == e.start_at
            &&& r.end_at == e.end_at
            &&& r.venue_id == e.venue_id
            &&& r.capacity == e.capacity
            &&& r.created_at == e.created_at
            &&& r.updated_at == e.updated_at
        }),
{
}

} // verus!
