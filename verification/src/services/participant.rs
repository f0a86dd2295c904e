//! Participants: adding people to a registration and changing their role or
//! needs.
use vstd::prelude::*;
use vstd::string::*;
use crate::clock::Timestamp;
use crate::error::AppError;
use crate::models::participant::{ParticipantEntity, ParticipantRole};
use crate::update::{given_or, or_stored};

verus! {

/// A participant to create; without a role the participant is a delegate.
#[derive(Debug, Clone)]
pub struct CreateParticipantRequest {
    pub registration_id: u64,
    pub client_id: u64,
    pub role: Option<String>,
    pub dietary_requirements: Option<String>,
    pub accessibility_needs: Option<String>,
}

/// Changes to a participant; fields left out are kept.
#[derive(Debug, Clone)]
pub struct UpdateParticipantRequest {
    pub role: Option<String>,
    pub dietary_requirements: Option<String>,
    pub accessibility_needs: Option<String>,
}

/// The participant service; it works through the participant store `R`.
pub struct ParticipantServiceImpl<R> {
    participant_repo: R,
}

impl<R> ParticipantServiceImpl<R> {
    /// The store the service reads and writes through.
    pub closed spec fn spec_participant_repo(&self) -> R {
        self.participant_repo
    }

    /// A service working through the given store.
    pub fn new(participant_repo: R) -> (r: Self)
        ensures
            r.spec_participant_repo() == participant_repo,
    {
        ParticipantServiceImpl { participant_repo }
    }

    /// The store the service reads and writes through.
    pub fn participant_repo(&self) -> (r: &R)
        ensures
            *r == self.spec_participant_repo(),
    {
        &self.participant_repo
    }
}

/// A role asked for by name, or the refusal "invalid role: " and the name.
pub fn requested_role(name: &String) -> (r: Result<ParticipantRole, AppError>)
    ensures
        match ParticipantRole::spec_parse(name@) {
            Ok(role) => r == Ok::<ParticipantRole, AppError>(role),
            Err(_) => r matches Err(AppError::Validation(m)) && m@ == "invalid role: "@ + name@,
        },
{
    match ParticipantRole::try_from(name.as_str()) {
        Ok(role) => Ok(role),
        Err(_) => {
            let mut m = String::from_str("invalid role: ");
            m.append(name.as_str());
            Err(AppError::Validation(m))
        },
    }
}

/// The participant to store for a creation request.  A role name that is not
/// known is refused; no role means delegate.
pub fn new_participant(dto: CreateParticipantRequest, now: Timestamp) -> (r: Result<ParticipantEntity, AppError>)
    ensures
        match dto.role {
            Some(name) => match ParticipantRole::spec_parse(name@) {
                Err(_) => r matches Err(AppError::Validation(m)) && m@ == "invalid role: "@ + name@,
                Ok(role) => r matches Ok(e) && e.participant_role@ == role.spec_name() && e == (ParticipantEntity {
                    participant_role: e.participant_role,
                    ..ParticipantEntity {
                        id: 0,
                        registration_id: dto.registration_id,
                        client_id: dto.client_id,
                        participant_role: e.participant_role,
                        dietary_requirements: dto.dietary_requirements,
                        accessibility_needs: dto.accessibility_needs,
                        created_at: now,
                        updated_at: now,
                    }
                }),
            },
            None => r matches Ok(e) && e.participant_role@ == "delegate"@ && e == (ParticipantEntity {
                id: 0,
                registration_id: dto.registration_id,
                client_id: dto.client_id,
                participant_role: e.participant_role,
                dietary_requirements: dto.dietary_requirements,
                accessibility_needs: dto.accessibility_needs,
                created_at: now,
                updated_at: now,
            }),
        },
{
    let role = match &dto.role {
        Some(name) => match requested_role(name) {
            Ok(role) => role,
            Err(e) => {
                return Err(e);
            },
        },
        None => ParticipantRole::Delegate,
    };
    Ok(
        ParticipantEntity {
            id: 0,
            registration_id: dto.registration_id,
            client_id: dto.client_id,
            participant_role: String::from_str(role.as_str()),
            dietary_requirements: dto.dietary_requirements,
            accessibility_needs: dto.accessibility_needs,
            created_at: now,
            updated_at: now,
        },
    )
}

/// The stored participant with the requested changes.  A role name that is
/// not known is refused; without one the stored role is kept.
pub fn updated_participant(stored: ParticipantEntity, dto: UpdateParticipantRequest, now: Timestamp) -> (r: Result<
    ParticipantEntity,
    AppError,
>)
    ensures
        ({
            let changed = |role_name: String|
                ParticipantEntity {
                    participant_role: role_name,
                    dietary_requirements: given_or(dto.dietary_requirements, stored.dietary_requirements),
                    accessibility_needs: given_or(dto.accessibility_needs, stored.accessibility_needs),
                    updated_at: now,
                    ..stored
                };
            match dto.role {
                Some(name) => match ParticipantRole::spec_parse(name@) {
                    Err(_) => r matches Err(AppError::Validation(m)) && m@ == "invalid role: "@ + name@,
                    Ok(role) => r matches Ok(e) && e.participant_role@ == role.spec_name() && e == changed(
                        e.participant_role,
                    ),
                },
                None => r == Ok::<ParticipantEntity, AppError>(changed(stored.participant_role)),
            }
        }),
{
    let role_name = match &dto.role {
        Some(name) => match requested_role(name) {
            Ok(role) => String::from_str(role.as_str()),
            Err(e) => {
                return Err(e);
            },
        },
        None => stored.participant_role.clone(),
    };
    Ok(
        ParticipantEntity {
            participant_role: role_name,
            dietary_requirements: or_stored(dto.dietary_requirements, stored.dietary_requirements),
            accessibility_needs: or_stored(dto.accessibility_needs, stored.accessibility_needs),
            updated_at: now,
            ..stored
        },
    )
}

} // verus!
