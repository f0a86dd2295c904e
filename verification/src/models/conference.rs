//! Conferences as stored.
use vstd::prelude::*;
use crate::clock::Timestamp;
use crate::models::group_discount::GroupDiscount;
use crate::services::venue::VenueEntity;
use vstd::std_specs::convert::FromSpec;

verus! {

/// A conference as stored; `published` is a flag, zero meaning "not yet".
#[derive(Debug, Clone)]
pub struct ConferenceEntity {
    pub id: u64,
    pub code: String,
    pub name: String,
    pub poster_url: Option<String>,
    pub description: Option<String>,
    pub start_date: Option<Timestamp>,
    pub end_date: Option<Timestamp>,
    pub venue_id: Option<u64>,
    pub group_discount_id: Option<u64>,
    pub published: i8,
    pub created_at: Timestamp,
    pub updated_at: Timestamp,
}

impl ConferenceEntity {
    /// Whether registrations are open: the flag is set.
    pub fn is_published(&self) -> (r: bool)
        ensures
            r == (self.published != 0),
    {
        self.published != 0
    }
}

/// A conference as shown, with its venue.
#[derive(Debug, Clone)]
pub struct Conference {
    pub id: u64,
    pub code: String,
    pub name: String,
    pub poster_url: Option<String>,
    pub description: Option<String>,
    pub start_date: Option<Timestamp>,
    pub end_date: Option<Timestamp>,
    pub venue: Option<VenueEntity>,
    pub group_discount: Option<GroupDiscount>,
    pub is_published: bool,
    pub created_at: Timestamp,
    pub updated_at: Timestamp,
}

/// The conference shown for a stored one and its venue: published when the
/// flag is set; the group discount is not loaded with it.
pub open spec fn conference_shown(e: ConferenceEntity, venue: Option<VenueEntity>) -> Conference {
    Conference {
        id: e.id,
        code: e.code,
        name: e.name,
        poster_url: e.poster_url,
        description: e.description,
        start_date: e.start_date,
        end_date: e.end_date,
        venue,
        group_discount: None,
        is_published: e.published != 0,
        created_at: e.created_at,
        updated_at: e.updated_at,
    }
}

impl From<(ConferenceEntity, Option<VenueEntity>)> for Conference {
    fn from(p: (ConferenceEntity, Option<VenueEntity>)) -> (r: Conference) {
        let (e, venue) = p;
        Conference {
            id: e.id,
            code: e.code,
            name: e.name,
            poster_url: e.poster_url,
            description: e.description,
            start_date: e.start_date,
            end_date: e.end_date,
            venue,
            group_discount: None,
            is_published: e.published != 0,
            created_at: e.created_at,
            updated_at: e.updated_at,
        }
    }
}

impl vstd::std_specs::convert::FromSpecImpl<(ConferenceEntity, Option<VenueEntity>)> for Conference {
    open spec fn obeys_from_spec() -> bool {
        true
    }

    open spec fn from_spec(p: (ConferenceEntity, Option<VenueEntity>)) -> Conference {
        conference_shown(p.0, p.1)
    }
}

/// The conference shown for a stored conference and the venue looked up for
/// it carries that venue, and the stored fields; it is published exactly
/// when its flag is set.
pub proof fn conference_shown_with_its_venue(e: ConferenceEntity, venue: Option<VenueEntity>)
    ensures
        <Conference as FromSpec<(ConferenceEntity, Option<VenueEntity>)>>::obeys_from_spec(),
        ({
            let c = <Conference as FromSpec<(ConferenceEntity, Option<VenueEntity>)>>::from_spec((e, venue));
            &&& c.venue == venue
            &&& c.id == e.id
            &&& c.code == e.code
            &&& c.name == e.name
            &&& c.poster_url == e.poster_url
            &&& c.description == e.description
            &&& c.start_date == e.start_date
            &&& c.end_date == e.end_date
            &&& c.is_published == (e.published != 0)
            &&& c.created_at == e.created_at
            &&& c.updated_at == e.updated_at
        }),
{
}

} // verus!
