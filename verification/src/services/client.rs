//! Clients: the people registrations are made for.
use vstd::prelude::*;
use crate::clock::Timestamp;
use crate::error::{AppError, DomainError};
use crate::models::client::ClientEntity;
use crate::update::{given_or, given_or_keep, or_stored, unwrap_or_stored};

verus! {

/// A client to create.
#[derive(Debug, Clone)]
pub struct CreateClientRequest {
    pub organization_id: Option<u64>,
    pub first_name: String,
    pub last_name: String,
    pub email: String,
}

/// Changes to a client; fields left out are kept.
#[derive(Debug, Clone)]
pub struct UpdateClientRequest {
    pub organization_id: Option<u64>,
    pub first_name: Option<String>,
    pub last_name: Option<String>,
    pub email: Option<String>,
}

/// The client service; it works through the client store `R`.
pub struct ClientServiceImpl<R> {
    client_repo: R,
}

impl<R> ClientServiceImpl<R> {
    /// The store the service reads and writes through.
    pub closed spec fn spec_client_repo(&self) -> R {
        self.client_repo
    }

    /// A service working through the given store.
    pub fn new(client_repo: R) -> (r: Self)
        ensures
            r.spec_client_repo() == client_repo,
    {
        ClientServiceImpl { client_repo }
    }

    /// The store the service reads and writes through.
    pub fn client_repo(&self) -> (r: &R)
        ensures
            *r == self.spec_client_repo(),
    {
        &self.client_repo
    }
}

/// The client to store for a creation request; refused as a conflict where a
/// client with the same email exists already.
pub fn new_client(dto: CreateClientRequest, email_exists: bool, now: Timestamp) -> (r: Result<ClientEntity, AppError>)
    ensures
        email_exists ==> r == Err::<ClientEntity, AppError>(AppError::Domain(DomainError::Conflict)),
        !email_exists ==> r == Ok::<ClientEntity, AppError>(
            ClientEntity {
                id: 0,
                organization_id: dto.organization_id,
                first_name: dto.first_name,
                last_name: dto.last_name,
                email: dto.email,
                created_at: now,
                updated_at: now,
            },
        ),
{
    if email_exists {
        return Err(AppError::Domain(DomainError::Conflict));
    }
    Ok(
        ClientEntity {
            id: 0,
            organization_id: dto.organization_id,
            first_name: dto.first_name,
            last_name: dto.last_name,
            email: dto.email,
            created_at: now,
            updated_at: now,
        },
    )
}

/// The stored client with the requested changes; fields left out are kept.
pub fn updated_client(stored: ClientEntity, dto: UpdateClientRequest, now: Timestamp) -> (r: ClientEntity)
    ensures
        r == (ClientEntity {
            id: stored.id,
            organization_id: given_or(dto.organization_id, stored.organization_id),
            first_name: given_or_keep(dto.first_name, stored.first_name),
            last_name: given_or_keep(dto.last_name, stored.last_name),
            email: given_or_keep(dto.email, stored.email),
            created_at: stored.created_at,
            updated_at: now,
        }),
{
    ClientEntity {
        id: stored.id,
        organization_id: or_stored(dto.organization_id, stored.organization_id),
        first_name: unwrap_or_stored(dto.first_name, stored.first_name),
        last_name: unwrap_or_stored(dto.last_name, stored.last_name),
        email: unwrap_or_stored(dto.email, stored.email),
        created_at: stored.created_at,
        updated_at: now,
    }
}

} // verus!
