//! Venues where conferences and their activities take place.
use vstd::prelude::*;
use vstd::std_specs::convert::FromSpec;
use crate::clock::Timestamp;
use crate::update::{given_or, given_or_keep, or_stored, unwrap_or_stored};

verus! {
/// A venue as stored.
#[derive(Debug, Clone)]
pub struct VenueEntity {
    pub id: u64,
    pub name: String,
    pub address_line1: Option<String>,
    pub address_line2: Option<String>,
    pub city: Option<String>,
    pub state_region: Option<String>,
    pub postal_code: Option<String>,
    pub country: Option<String>,
    pub notes: Option<String>,
    pub created_at: Timestamp,
    pub updated_at: Timestamp,
}

/// A venue to create.
#[derive(Debug, Clone)]
pub struct CreateVenueRequest {
    pub name: String,
    pub address_line1: Option<String>,
    pub address_line2: Option<String>,
    pub city: Option<String>,
    pub state_region: Option<String>,
    pub postal_code: Option<String>,
    pub country: Option<String>,
    pub notes: Option<String>,
}

/// Changes to a venue; fields left out are kept.
#[derive(Debug, Clone)]
pub struct UpdateVenueRequest {
    pub name: Option<String>,
    pub address_line1: Option<String>,
    pub address_line2: Option<String>,
    pub city: Option<String>,
    pub state_region: Option<String>,
    pub postal_code: Option<String>,
    pub country: Option<String>,
    pub notes: Option<String>,
}

/// The venue service; it works through the venue store `R`.
pub struct VenueServiceImpl<R> {
    venue_repo: R,
}

impl<R> VenueServiceImpl<R> {
    /// The store the service reads and writes through.
    pub closed spec fn spec_venue_repo(&self) -> R {
        self.venue_repo
    }

    /// A service working through the given stores.
    pub fn new(venue_repo: R) -> (r: Self)
        ensures
            r.spec_venue_repo() == venue_repo,
    {
        VenueServiceImpl { venue_repo }
    }

    /// The store the service reads and writes through.
    pub fn venue_repo(&self) -> (r: &R)
        ensures
            *r == self.spec_venue_repo(),
    {
        &self.venue_repo
    }
}

/// The venue to store for a creation request.
pub fn new_venue(dto: CreateVenueRequest, now: Timestamp) -> (r: VenueEntity)
    ensures
        r == (VenueEntity {
            id: 0,
            name: dto.name,
            address_line1: dto.address_line1,
            address_line2: dto.address_line2,
            city: dto.city,
            state_region: dto.state_region,
            postal_code: dto.postal_code,
            country: dto.country,
            notes: dto.notes,
            created_at: now,
            updated_at: now,
        }),
{
    VenueEntity {
        id: 0,
        name: dto.name,
        address_line1: dto.address_line1,
        address_line2: dto.address_line2,
        city: dto.city,
        state_region: dto.state_region,
        postal_code: dto.postal_code,
        country: dto.country,
        notes: dto.notes,
        created_at: now,
        updated_at: now,
    }
}

/// The stored venue with the requested changes; fields left out are kept.
pub fn updated_venue(stored: VenueEntity, dto: UpdateVenueRequest, now: Timestamp) -> (r: VenueEntity)
    ensures
        r == (VenueEntity {
            name: given_or_keep(dto.name, stored.name),
            address_line1: given_or(dto.address_line1, stored.address_line1),
            address_line2: given_or(dto.address_line2, stored.address_line2),
            city: given_or(dto.city, stored.city),
            state_region: given_or(dto.state_region, stored.state_region),
            postal_code: given_or(dto.postal_code, stored.postal_code),
            country: given_or(dto.country, stored.country),
            notes: given_or(dto.notes, stored.notes),
            updated_at: now,
            ..stored
        }),
{
    VenueEntity {
        name: unwrap_or_stored(dto.name, stored.name),
        address_line1: or_stored(dto.address_line1, stored.address_line1),
        address_line2: or_stored(dto.address_line2, stored.address_line2),
        city: or_stored(dto.city, stored.city),
        state_region: or_stored(dto.state_region, stored.state_region),
        postal_code: or_stored(dto.postal_code, stored.postal_code),
        country: or_stored(dto.country, stored.country),
        notes: or_stored(dto.notes, stored.notes),
        updated_at: now,
        ..stored
    }
}

/// A venue.
#[derive(Debug, Clone)]
pub struct Venue {
    pub id: u64,
    pub name: String,
    pub address_line1: Option<String>,
    pub address_line2: Option<String>,
    pub city: Option<String>,
    pub state_region: Option<String>,
    pub postal_code: Option<String>,
    pub country: Option<String>,
    pub notes: Option<String>,
    pub created_at: Timestamp,
    pub updated_at: Timestamp,
}

impl From<VenueEntity> for Venue {
    fn from(e: VenueEntity) -> (r: Venue) {
        Venue {
            id: e.id,
            name: e.name,
            address_line1: e.address_line1,
            address_line2: e.address_line2,
            city: e.city,
            state_region: e.state_region,
            postal_code: e.postal_code,
            country: e.country,
            notes: e.notes,
            created_at: e.created_at,
            updated_at: e.updated_at,
        }
    }
}

impl vstd::std_specs::convert::FromSpecImpl<VenueEntity> for Venue {
    open spec fn obeys_from_spec() -> bool {
        true
    }

    /// Every field is kept.
    open spec fn from_spec(e: VenueEntity) -> Venue {
        Venue {
            id: e.id,
            name: e.name,
            address_line1: e.address_line1,
            address_line2: e.address_line2,
            city: e.city,
            state_region: e.state_region,
            postal_code: e.postal_code,
            country: e.country,
            notes: e.notes,
            created_at: e.created_at,
            updated_at: e.updated_at,
        }
    }
}

/// A venue reads back with every stored field.
pub proof fn venue_read_back(e: VenueEntity)
    ensures
        <Venue as FromSpec<VenueEntity>>::obeys_from_spec(),
        ({
            let r = <Venue as FromSpec<VenueEntity>>::from_spec(e);
            &&& r.id == e.id
            &&& r.name == e.name
            &&& r.address_line1 == e.address_line1
            &&& r.address_line2 == e.address_line2
            &&& r.city == e.city
            &&& r.state_region == e.state_region
            &&& r.postal_code == e.postal_code
            &&& r.country == e.country
            &&& r.notes == e.notes
            &&& r.created_at == e.created_at
            &&& r.updated_at == e.updated_at
        }),
{
}

} // verus!
