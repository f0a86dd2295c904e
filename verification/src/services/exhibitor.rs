//! Exhibitors: what an exhibiting participant needs on site.
use vstd::prelude::*;
use vstd::std_specs::convert::FromSpec;
use crate::clock::Timestamp;
use crate::update::{given_or, given_or_keep, or_stored, unwrap_or_stored};

verus! {

/// An exhibitor as stored: the needs are kept as flags, zero meaning "no".
#[derive(Debug, Clone)]
pub struct ExhibitorEntity {
    pub id: u64,
    pub participant_id: u64,
    pub company_name: String,
    pub power_required: i8,
    pub internet_required: i8,
    pub notes_internal: Option<String>,
    pub created_at: Timestamp,
    pub updated_at: Timestamp,
}

/// An exhibitor.
#[derive(Debug, Clone)]
pub struct Exhibitor {
    pub id: u64,
    pub participant_id: u64,
    pub company_name: String,
    pub power_required: bool,
    pub internet_required: bool,
    pub notes_internal: Option<String>,
    pub created_at: Timestamp,
    pub updated_at: Timestamp,
}

/// The flag stored for a yes/no answer.
pub open spec fn flag(b: bool) -> i8 {
    if b {
        1
    } else {
        0
    }
}

/// The exhibitor a stored one reads as: a flag is "yes" when it is not zero.
pub open spec fn exhibitor_from_entity(e: ExhibitorEntity) -> Exhibitor {
    Exhibitor {
        id: e.id,
        participant_id: e.participant_id,
        company_name: e.company_name,
        power_required: e.power_required != 0,
        internet_required: e.internet_required != 0,
        notes_internal: e.notes_internal,
        created_at: e.created_at,
        updated_at: e.updated_at,
    }
}

impl From<ExhibitorEntity> for Exhibitor {
    fn from(e: ExhibitorEntity) -> (r: Exhibitor) {
        Exhibitor {
            id: e.id,
            participant_id: e.participant_id,
            company_name: e.company_name,
            power_required: e.power_required != 0,
            internet_required: e.internet_required != 0,
            notes_internal: e.notes_internal,
            created_at: e.created_at,
            updated_at: e.updated_at,
        }
    }
}

impl vstd::std_specs::convert::FromSpecImpl<ExhibitorEntity> for Exhibitor {
    open spec fn obeys_from_spec() -> bool {
        true
    }

    open spec fn from_spec(e: ExhibitorEntity) -> Exhibitor {
        exhibitor_from_entity(e)
    }
}

/// An exhibitor to create (the participant is given beside it).
#[derive(Debug, Clone)]
pub struct CreateExhibitorRequest {
    pub company_name: String,
    pub power_required: Option<bool>,
    pub internet_required: Option<bool>,
    pub notes_internal: Option<String>,
}

/// Changes to an exhibitor; fields left out are kept.
#[derive(Debug, Clone)]
pub struct UpdateExhibitorRequest {
    pub company_name: Option<String>,
    pub power_required: Option<bool>,
    pub internet_required: Option<bool>,
    pub notes_internal: Option<String>,
}

/// The exhibitor service; it works through the exhibitor store `R`.
pub struct ExhibitorServiceImpl<R> {
    exhibitor_repo: R,
}

impl<R> ExhibitorServiceImpl<R> {
    /// The store the service reads and writes through.
    pub closed spec fn spec_exhibitor_repo(&self) -> R {
        self.exhibitor_repo
    }

    /// A service working through the given store.
    pub fn new(exhibitor_repo: R) -> (r: Self)
        ensures
            r.spec_exhibitor_repo() == exhibitor_repo,
    {
        ExhibitorServiceImpl { exhibitor_repo }
    }

    /// The store the service reads and writes through.
    pub fn exhibitor_repo(&self) -> (r: &R)
        ensures
            *r == self.spec_exhibitor_repo(),
    {
        &self.exhibitor_repo
    }
}

fn to_flag(b: bool) -> (r: i8)
    ensures
        r == flag(b),
{
    if b {
        1
    } else {
        0
    }
}

/// The flag for an optional answer, or the stored flag when none is given.
fn flag_or_stored(given: Option<bool>, stored: i8) -> (r: i8)
    ensures
        r == (match given {
            Some(b) => flag(b),
            None => stored,
        }),
{
    match given {
        Some(b) => to_flag(b),
        None => stored,
    }
}

/// The exhibitor to store for a creation request; an unanswered need is "no".
pub open spec fn spec_new_exhibitor(participant_id: u64, dto: CreateExhibitorRequest, now: Timestamp) -> ExhibitorEntity {
    ExhibitorEntity {
        id: 0,
        participant_id,
        company_name: dto.company_name,
        power_required: flag(given_or_keep(dto.power_required, false)),
        internet_required: flag(given_or_keep(dto.internet_required, false)),
        notes_internal: dto.notes_internal,
        created_at: now,
        updated_at: now,
    }
}

/// The stored exhibitor with the requested changes; fields left out are kept.
pub open spec fn spec_updated_exhibitor(stored: ExhibitorEntity, dto: UpdateExhibitorRequest, now: Timestamp) -> ExhibitorEntity {
    ExhibitorEntity {
        company_name: given_or_keep(dto.company_name, stored.company_name),
        power_required: match dto.power_required {
            Some(b) => flag(b),
            None => stored.power_required,
        },
        internet_required: match dto.internet_required {
            Some(b) => flag(b),
            None => stored.internet_required,
        },
        notes_internal: given_or(dto.notes_internal, stored.notes_internal),
        updated_at: now,
        ..stored
    }
}

/// The exhibitor to store for a creation request; an unanswered need is "no".
pub fn new_exhibitor(participant_id: u64, dto: CreateExhibitorRequest, now: Timestamp) -> (r: ExhibitorEntity)
    ensures
        r == spec_new_exhibitor(participant_id, dto, now),
{
    ExhibitorEntity {
        id: 0,
        participant_id,
        company_name: dto.company_name,
        power_required: to_flag(unwrap_or_stored(dto.power_required, false)),
        internet_required: to_flag(unwrap_or_stored(dto.internet_required, false)),
        notes_internal: dto.notes_internal,
        created_at: now,
        updated_at: now,
    }
}

/// The stored exhibitor with the requested changes; fields left out are kept.
pub fn updated_exhibitor(stored: ExhibitorEntity, dto: UpdateExhibitorRequest, now: Timestamp) -> (r: ExhibitorEntity)
    ensures
        r == spec_updated_exhibitor(stored, dto, now),
{
    ExhibitorEntity {
        company_name: unwrap_or_stored(dto.company_name, stored.company_name),
        power_required: flag_or_stored(dto.power_required, stored.power_required),
        internet_required: flag_or_stored(dto.internet_required, stored.internet_required),
        notes_internal: or_stored(dto.notes_internal, stored.notes_internal),
        updated_at: now,
        ..stored
    }
}

/// An exhibitor reads back the needs it was created with (an unanswered
/// need reading as "no"), and after an update the needs given in it.
pub proof fn exhibitor_needs_read_back(
    participant_id: u64,
    create: CreateExhibitorRequest,
    update: UpdateExhibitorRequest,
    stored: ExhibitorEntity,
    now: Timestamp,
)
    ensures
        exhibitor_from_entity(spec_new_exhibitor(participant_id, create, now)).power_required
            == given_or_keep(create.power_required, false),
        exhibitor_from_entity(spec_new_exhibitor(participant_id, create, now)).internet_required
            == given_or_keep(create.internet_required, false),
        exhibitor_from_entity(spec_updated_exhibitor(stored, update, now)).power_required
            == given_or_keep(update.power_required, stored.power_required != 0),
        exhibitor_from_entity(spec_updated_exhibitor(stored, update, now)).internet_required
            == given_or_keep(update.internet_required, stored.internet_required != 0),
{
}

/// An exhibitor reads back with its stored fields; a need is "yes" exactly when
/// its flag is not zero.
pub proof fn exhibitor_read_back(e: ExhibitorEntity)
    ensures
        <Exhibitor as FromSpec<ExhibitorEntity>>::obeys_from_spec(),
        ({
            let r = <Exhibitor as FromSpec<ExhibitorEntity>>::from_spec(e);
            &&& r.id == e.id
            &&& r.participant_id == e.participant_id
            &&& r.company_name == e.company_name
            &&& r.notes_internal == e.notes_internal
            &&& r.created_at == e.created_at
            &&& r.updated_at == e.updated_at
            &&& r.power_required == (e.power_required != 0)
            &&& r.internet_required == (e.internet_required != 0)
        }),
{
}

} // verus!
