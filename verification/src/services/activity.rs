//! Activities of a conference and the bookings on them.
use vstd::prelude::*;
use vstd::std_specs::convert::FromSpec;
use crate::clock::Timestamp;
use crate::update::{given_or, given_or_keep, or_stored, unwrap_or_stored};
use crate::models::activity_booking::{ActivityBooking, BookingStatus};

verus! {
/// An activity as stored.
#[derive(Debug, Clone)]
pub struct ActivityEntity {
    pub id: u64,
    pub conference_id: u64,
    pub name: String,
    pub description: Option<String>,
    pub start_at: Timestamp,
    pub end_at: Timestamp,
    pub venue_id: Option<u64>,
    pub provider_url: Option<String>,
    pub capacity: Option<i32>,
    pub created_at: Timestamp,
    pub updated_at: Timestamp,
}

/// An activity to create.
#[derive(Debug, Clone)]
pub struct CreateActivityRequest {
    pub conference_id: u64,
    pub name: String,
    pub description: Option<String>,
    pub start_at: Timestamp,
    pub end_at: Timestamp,
    pub venue_id: Option<u64>,
    pub provider_url: Option<String>,
    pub capacity: Option<i32>,
}

/// Changes to an activity; fields left out are kept.
#[derive(Debug, Clone)]
pub struct UpdateActivityRequest {
    pub name: Option<String>,
    pub description: Option<String>,
    pub start_at: Option<Timestamp>,
    pub end_at: Option<Timestamp>,
    pub venue_id: Option<u64>,
    pub provider_url: Option<String>,
    pub capacity: Option<i32>,
}

/// The activity service; it works through the activity store `A` and the booking store `B`.
pub struct ActivityServiceImpl<A, B> {
    activity_repo: A,
    booking_repo: B,
}

impl<A, B> ActivityServiceImpl<A, B> {
    /// The store the service reads and writes through.
    pub closed spec fn spec_activity_repo(&self) -> A {
        self.activity_repo
    }

    /// The store the service reads and writes through.
    pub closed spec fn spec_booking_repo(&self) -> B {
        self.booking_repo
    }

    /// A service working through the given stores.
    pub fn new(activity_repo: A, booking_repo: B) -> (r: Self)
        ensures
            r.spec_activity_repo() == activity_repo,
            r.spec_booking_repo() == booking_repo,
    {
        ActivityServiceImpl { activity_repo, booking_repo }
    }

    /// The store the service reads and writes through.
    pub fn activity_repo(&self) -> (r: &A)
        ensures
            *r == self.spec_activity_repo(),
    {
        &self.activity_repo
    }

    /// The store the service reads and writes through.
    pub fn booking_repo(&self) -> (r: &B)
        ensures
            *r == self.spec_booking_repo(),
    {
        &self.booking_repo
    }
}

/// The activity to store for a creation request.
pub fn new_activity(dto: CreateActivityRequest, now: Timestamp) -> (r: ActivityEntity)
    ensures
        r == (ActivityEntity {
            id: 0,
            conference_id: dto.conference_id,
            name: dto.name,
            description: dto.description,
            start_at: dto.start_at,
            end_at: dto.end_at,
            venue_id: dto.venue_id,
            provider_url: dto.provider_url,
            capacity: dto.capacity,
            created_at: now,
            updated_at: now,
        }),
{
    ActivityEntity {
        id: 0,
        conference_id: dto.conference_id,
        name: dto.name,
        description: dto.description,
        start_at: dto.start_at,
        end_at: dto.end_at,
        venue_id: dto.venue_id,
        provider_url: dto.provider_url,
        capacity: dto.capacity,
        created_at: now,
        updated_at: now,
    }
}

/// The stored activity with the requested changes; fields left out are kept.
pub fn updated_activity(stored: ActivityEntity, dto: UpdateActivityRequest, now: Timestamp) -> (r: ActivityEntity)
    ensures
        r == (ActivityEntity {
            name: given_or_keep(dto.name, stored.name),
            description: given_or(dto.description, stored.description),
            start_at: given_or_keep(dto.start_at, stored.start_at),
            end_at: given_or_keep(dto.end_at, stored.end_at),
            venue_id: given_or(dto.venue_id, stored.venue_id),
            provider_url: given_or(dto.provider_url, stored.provider_url),
            capacity: given_or(dto.capacity, stored.capacity),
            updated_at: now,
            ..stored
        }),
{
    ActivityEntity {
        name: unwrap_or_stored(dto.name, stored.name),
        description: or_stored(dto.description, stored.description),
        start_at: unwrap_or_stored(dto.start_at, stored.start_at),
        end_at: unwrap_or_stored(dto.end_at, stored.end_at),
        venue_id: or_stored(dto.venue_id, stored.venue_id),
        provider_url: or_stored(dto.provider_url, stored.provider_url),
        capacity: or_stored(dto.capacity, stored.capacity),
        updated_at: now,
        ..stored
    }
}

/// An activity of a conference.
#[derive(Debug, Clone)]
pub struct Activity {
    pub id: u64,
    pub conference_id: u64,
    pub name: String,
    pub description: Option<String>,
    pub start_at: Timestamp,
    pub end_at: Timestamp,
    pub venue_id: Option<u64>,
    pub provider_url: Option<String>,
    pub capacity: Option<i32>,
    pub created_at: Timestamp,
    pub updated_at: Timestamp,
}

impl From<ActivityEntity> for Activity {
    fn from(e: ActivityEntity) -> (r: Activity) {
        Activity {
            id: e.id,
            conference_id: e.conference_id,
            name: e.name,
            description: e.description,
            start_at: e.start_at,
            end_at: e.end_at,
            venue_id: e.venue_id,
            provider_url: e.provider_url,
            capacity: e.capacity,
            created_at: e.created_at,
            updated_at: e.updated_at,
        }
    }
}

impl vstd::std_specs::convert::FromSpecImpl<ActivityEntity> for Activity {
    open spec fn obeys_from_spec() -> bool {
        true
    }

    /// Every field is kept.
    open spec fn from_spec(e: ActivityEntity) -> Activity {
        Activity {
            id: e.id,
            conference_id: e.conference_id,
            name: e.name,
            description: e.description,
            start_at: e.start_at,
            end_at: e.end_at,
            venue_id: e.venue_id,
            provider_url: e.provider_url,
            capacity: e.capacity,
            created_at: e.created_at,
            updated_at: e.updated_at,
        }
    }
}

/// A participant's booking on an activity, as stored: the status is kept as
/// its name.
#[derive(Debug, Clone)]
pub struct ActivityBookingEntity {
    pub id: u64,
    pub activity_id: u64,
    pub participant_id: u64,
    pub status: String,
    pub created_at: Timestamp,
    pub updated_at: Timestamp,
}

/// The booking a stored one reads as: a status name that is not known reads
/// as `Reserved`, the status every booking starts in.
pub open spec fn booking_from_entity(e: ActivityBookingEntity) -> ActivityBooking {
    ActivityBooking {
        id: e.id,
        activity_id: e.activity_id,
        participant_id: e.participant_id,
        status: match BookingStatus::spec_parse(e.status@) {
            Ok(s) => s,
            Err(_) => BookingStatus::Reserved,
        },
        created_at: e.created_at,
        updated_at: e.updated_at,
    }
}

impl From<ActivityBookingEntity> for ActivityBooking {
    fn from(e: ActivityBookingEntity) -> (r: ActivityBooking) {
        let status = match BookingStatus::try_from(e.status.as_str()) {
            Ok(s) => s,
            Err(_) => BookingStatus::Reserved,
        };
        ActivityBooking {
            id: e.id,
            activity_id: e.activity_id,
            participant_id: e.participant_id,
            status,
            created_at: e.created_at,
            updated_at: e.updated_at,
        }
    }
}

impl vstd::std_specs::convert::FromSpecImpl<ActivityBookingEntity> for ActivityBooking {
    open spec fn obeys_from_spec() -> bool {
        true
    }

    open spec fn from_spec(e: ActivityBookingEntity) -> ActivityBooking {
        booking_from_entity(e)
    }
}

/// An activity reads back with every stored field.
pub proof fn activity_read_back(e: ActivityEntity)
    ensures
        <Activity as FromSpec<ActivityEntity>>::obeys_from_spec(),
        ({
            let r = <Activity as FromSpec<ActivityEntity>>::from_spec(e);
            &&& r.id == e.id
            &&& r.conference_id == e.conference_id
            &&& r.name == e.name
            &&& r.description == e.description
            &&& r.start_at == e.start_at
            &&& r.end_at == e.end_at
            &&& r.venue_id == e.venue_id
            &&& r.provider_url == e.provider_url
            &&& r.capacity == e.capacity
            &&& r.created_at == e.created_at
            &&& r.updated_at == e.updated_at
        }),
{
}

/// A booking reads back with its activity, participant and times; a known
/// status name reads as that status, any other as `Reserved`.
pub proof fn booking_read_back(e: ActivityBookingEntity)
    ensures
        <ActivityBooking as FromSpec<ActivityBookingEntity>>::obeys_from_spec(),
        ({
            let r = <ActivityBooking as FromSpec<ActivityBookingEntity>>::from_spec(e);
            &&& r.id == e.id
            &&& r.activity_id == e.activity_id
            &&& r.participant_id == e.participant_id
            &&& r.created_at == e.created_at
            &&& r.updated_at == e.updated_at
            &&& r.status.spec_name() == e.status@ || (r.status == BookingStatus::Reserved
                && BookingStatus::spec_parse(e.status@) is Err)
        }),
{
}

} // verus!
