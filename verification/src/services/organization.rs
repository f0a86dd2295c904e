//! Organizations that clients and delegates belong to.
use vstd::prelude::*;
use vstd::std_specs::convert::FromSpec;
use crate::clock::Timestamp;
use crate::update::{given_or, given_or_keep, or_stored, unwrap_or_stored};

verus! {
/// An organization as stored.
#[derive(Debug, Clone)]
pub struct OrganizationEntity {
    pub id: u64,
    pub name: String,
    pub website: Option<String>,
    pub phone: Option<String>,
    pub billing_email: String,
    pub created_at: Timestamp,
    pub updated_at: Timestamp,
}

/// An organization to create.
#[derive(Debug, Clone)]
pub struct CreateOrganizationRequest {
    pub name: String,
    pub website: Option<String>,
    pub phone: Option<String>,
    pub billing_email: String,
}

/// Changes to an organization; fields left out are kept.
#[derive(Debug, Clone)]
pub struct UpdateOrganizationRequest {
    pub name: Option<String>,
    pub website: Option<String>,
    pub phone: Option<String>,
    pub billing_email: Option<String>,
}

/// The organization service; it works through the organization store `R`.
pub struct OrganizationServiceImpl<R> {
    organization_repo: R,
}

impl<R> OrganizationServiceImpl<R> {
    /// The store the service reads and writes through.
    pub closed spec fn spec_organization_repo(&self) -> R {
        self.organization_repo
    }

    /// A service working through the given stores.
    pub fn new(organization_repo: R) -> (r: Self)
        ensures
            r.spec_organization_repo() == organization_repo,
    {
        OrganizationServiceImpl { organization_repo }
    }

    /// The store the service reads and writes through.
    pub fn organization_repo(&self) -> (r: &R)
        ensures
            *r == self.spec_organization_repo(),
    {
        &self.organization_repo
    }
}

/// The organization to store for a creation request.
pub fn new_organization(dto: CreateOrganizationRequest, now: Timestamp) -> (r: OrganizationEntity)
    ensures
        r == (OrganizationEntity {
            id: 0,
            name: dto.name,
            website: dto.website,
            phone: dto.phone,
            billing_email: dto.billing_email,
            created_at: now,
            updated_at: now,
        }),
{
    OrganizationEntity {
        id: 0,
        name: dto.name,
        website: dto.website,
        phone: dto.phone,
        billing_email: dto.billing_email,
        created_at: now,
        updated_at: now,
    }
}

/// The stored organization with the requested changes; fields left out are kept.
pub fn updated_organization(stored: OrganizationEntity, dto: UpdateOrganizationRequest, now: Timestamp) -> (r: OrganizationEntity)
    ensures
        r == (OrganizationEntity {
            name: given_or_keep(dto.name, stored.name),
            website: given_or(dto.website, stored.website),
            phone: given_or(dto.phone, stored.phone),
            billing_email: given_or_keep(dto.billing_email, stored.billing_email),
            updated_at: now,
            ..stored
        }),
{
    OrganizationEntity {
        name: unwrap_or_stored(dto.name, stored.name),
        website: or_stored(dto.website, stored.website),
        phone: or_stored(dto.phone, stored.phone),
        billing_email: unwrap_or_stored(dto.billing_email, stored.billing_email),
        updated_at: now,
        ..stored
    }
}

/// An organization as shown: its name and website.
#[derive(Debug, Clone)]
pub struct Organization {
    pub id: u64,
    pub name: String,
    pub website: Option<String>,
    pub created_at: Timestamp,
    pub updated_at: Timestamp,
}

impl From<OrganizationEntity> for Organization {
    fn from(e: OrganizationEntity) -> (r: Organization) {
        Organization { id: e.id, name: e.name, website: e.website, created_at: e.created_at, updated_at: e.updated_at }
    }
}

impl vstd::std_specs::convert::FromSpecImpl<OrganizationEntity> for Organization {
    open spec fn obeys_from_spec() -> bool {
        true
    }

    /// The phone and billing email are not shown; the rest is kept.
    open spec fn from_spec(e: OrganizationEntity) -> Organization {
        Organization { id: e.id, name: e.name, website: e.website, created_at: e.created_at, updated_at: e.updated_at }
    }
}

/// An organization reads back with every stored field.
pub proof fn organization_read_back(e: OrganizationEntity)
    ensures
        <Organization as FromSpec<OrganizationEntity>>::obeys_from_spec(),
        ({
            let r = <Organization as FromSpec<OrganizationEntity>>::from_spec(e);
            &&& r.id == e.id
            &&& r.name == e.name
            &&& r.website == e.website
            &&& r.created_at == e.created_at
            &&& r.updated_at == e.updated_at
        }),
{
}

} // verus!
