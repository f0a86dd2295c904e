//! Sponsors: what a sponsoring participant provides.
use vstd::prelude::*;
use vstd::std_specs::convert::FromSpec;
use crate::clock::Timestamp;
use crate::update::{given_or, given_or_keep, or_stored, unwrap_or_stored};

verus! {
/// A sponsor as stored.
#[derive(Debug, Clone)]
pub struct SponsorEntity {
    pub id: u64,
    pub participant_id: u64,
    pub tier: String,
    pub company_name: Option<String>,
    pub logo_url: Option<String>,
    pub invoice_contact: Option<String>,
    pub benefits_notes: Option<String>,
    pub created_at: Timestamp,
    pub updated_at: Timestamp,
}

/// A sponsor to create (the participant is given beside it).
#[derive(Debug, Clone)]
pub struct CreateSponsorRequest {
    pub tier: String,
    pub company_name: Option<String>,
    pub logo_url: Option<String>,
    pub invoice_contact: Option<String>,
    pub benefits_notes: Option<String>,
}

/// Changes to a sponsor; fields left out are kept.
#[derive(Debug, Clone)]
pub struct UpdateSponsorRequest {
    pub tier: Option<String>,
    pub company_name: Option<String>,
    pub logo_url: Option<String>,
    pub invoice_contact: Option<String>,
    pub benefits_notes: Option<String>,
}

/// The sponsor service; it works through the sponsor store `R`.
pub struct SponsorServiceImpl<R> {
    sponsor_repo: R,
}

impl<R> SponsorServiceImpl<R> {
    /// The store the service reads and writes through.
    pub closed spec fn spec_sponsor_repo(&self) -> R {
        self.sponsor_repo
    }

    /// A service working through the given stores.
    pub fn new(sponsor_repo: R) -> (r: Self)
        ensures
            r.spec_sponsor_repo() == sponsor_repo,
    {
        SponsorServiceImpl { sponsor_repo }
    }

    /// The store the service reads and writes through.
    pub fn sponsor_repo(&self) -> (r: &R)
        ensures
            *r == self.spec_sponsor_repo(),
    {
        &self.sponsor_repo
    }
}

/// The sponsor to store for a creation request.
pub fn new_sponsor(dto: CreateSponsorRequest, participant_id: u64, now: Timestamp) -> (r: SponsorEntity)
    ensures
        r == (SponsorEntity {
            id: 0,
            participant_id: participant_id,
            tier: dto.tier,
            company_name: dto.company_name,
            logo_url: dto.logo_url,
            invoice_contact: dto.invoice_contact,
            benefits_notes: dto.benefits_notes,
            created_at: now,
            updated_at: now,
        }),
{
    SponsorEntity {
        id: 0,
        participant_id: participant_id,
        tier: dto.tier,
        company_name: dto.company_name,
        logo_url: dto.logo_url,
        invoice_contact: dto.invoice_contact,
        benefits_notes: dto.benefits_notes,
        created_at: now,
        updated_at: now,
    }
}

/// The stored sponsor with the requested changes; fields left out are kept.
pub fn updated_sponsor(stored: SponsorEntity, dto: UpdateSponsorRequest, now: Timestamp) -> (r: SponsorEntity)
    ensures
        r == (SponsorEntity {
            tier: given_or_keep(dto.tier, stored.tier),
            company_name: given_or(dto.company_name, stored.company_name),
            logo_url: given_or(dto.logo_url, stored.logo_url),
            invoice_contact: given_or(dto.invoice_contact, stored.invoice_contact),
            benefits_notes: given_or(dto.benefits_notes, stored.benefits_notes),
            updated_at: now,
            ..stored
        }),
{
    SponsorEntity {
        tier: unwrap_or_stored(dto.tier, stored.tier),
        company_name: or_stored(dto.company_name, stored.company_name),
        logo_url: or_stored(dto.logo_url, stored.logo_url),
        invoice_contact: or_stored(dto.invoice_contact, stored.invoice_contact),
        benefits_notes: or_stored(dto.benefits_notes, stored.benefits_notes),
        updated_at: now,
        ..stored
    }
}

/// A sponsor.
#[derive(Debug, Clone)]
pub struct Sponsor {
    pub id: u64,
    pub participant_id: u64,
    pub tier: String,
    pub company_name: Option<String>,
    pub logo_url: Option<String>,
    pub invoice_contact: Option<String>,
    pub benefits_notes: Option<String>,
    pub created_at: Timestamp,
    pub updated_at: Timestamp,
}

impl From<SponsorEntity> for Sponsor {
    fn from(e: SponsorEntity) -> (r: Sponsor) {
        Sponsor {
            id: e.id,
            participant_id: e.participant_id,
            tier: e.tier,
            company_name: e.company_name,
            logo_url: e.logo_url,
            invoice_contact: e.invoice_contact,
            benefits_notes: e.benefits_notes,
            created_at: e.created_at,
            updated_at: e.updated_at,
        }
    }
}

impl vstd::std_specs::convert::FromSpecImpl<SponsorEntity> for Sponsor {
    open spec fn obeys_from_spec() -> bool {
        true
    }

    /// Every field is kept.
    open spec fn from_spec(e: SponsorEntity) -> Sponsor {
        Sponsor {
            id: e.id,
            participant_id: e.participant_id,
            tier: e.tier,
            company_name: e.company_name,
            logo_url: e.logo_url,
            invoice_contact: e.invoice_contact,
            benefits_notes: e.benefits_notes,
            created_at: e.created_at,
            updated_at: e.updated_at,
        }
    }
}

/// A sponsor reads back with every stored field.
pub proof fn sponsor_read_back(e: SponsorEntity)
    ensures
        <Sponsor as FromSpec<SponsorEntity>>::obeys_from_spec(),
        ({
            let r = <Sponsor as FromSpec<SponsorEntity>>::from_spec(e);
            &&& r.id == e.id
            &&& r.participant_id == e.participant_id
            &&& r.tier == e.tier
            &&& r.company_name == e.company_name
            &&& r.logo_url == e.logo_url
            &&& r.invoice_contact == e.invoice_contact
            &&& r.benefits_notes == e.benefits_notes
            &&& r.created_at == e.created_at
            &&& r.updated_at == e.updated_at
        }),
{
}

} // verus!
