//! Registrations: creating, editing, moving through the selection and
//! recording payments.
use vstd::prelude::*;
use vstd::string::*;
use crate::clock::Timestamp;
use crate::error::{AppError, DomainError};
use crate::models::registration::{PaymentStatus, RegistrationEntity, RegistrationStatus, spec_payment_status};
use crate::money::Money;
use crate::update::{given_or, given_or_keep, or_stored, unwrap_or_stored};

verus! {

/// A registration to create.
#[derive(Debug, Clone)]
pub struct CreateRegistrationRequest {
    pub conference_id: u64,
    pub cost: Option<Money>,
    pub discount_code: Option<String>,
    pub discount_amount: Option<Money>,
    pub created_by_id: Option<u64>,
    pub notes_internal: Option<String>,
}

/// Changes to a registration; fields left out are kept.
#[derive(Debug, Clone)]
pub struct UpdateRegistrationRequest {
    pub cost: Option<Money>,
    pub discount_code: Option<String>,
    pub discount_amount: Option<Money>,
    pub notes_internal: Option<String>,
}

/// The status a registration is to move to, by name.
#[derive(Debug, Clone)]
pub struct TransitionStatusRequest {
    pub status: String,
}

/// A payment received for a registration.
#[derive(Debug, Clone)]
pub struct RecordPaymentRequest {
    pub amount: Money,
}

/// The registration service; it works through the registration store `R`.
pub struct RegistrationServiceImpl<R> {
    registration_repo: R,
}

impl<R> RegistrationServiceImpl<R> {
    /// The store the service works through.
    pub closed spec fn spec_registration_repo(&self) -> R {
        self.registration_repo
    }

    /// A service working through the given store.
    pub fn new(registration_repo: R) -> (r: Self)
        ensures
            r.spec_registration_repo() == registration_repo,
    {
        RegistrationServiceImpl { registration_repo }
    }

    /// The store the service works through.
    pub fn registration_repo(&self) -> (r: &R)
        ensures
            *r == self.spec_registration_repo(),
    {
        &self.registration_repo
    }
}

/// The registration to store for a request: submitted, nothing paid, no
/// cost or discount amount meaning zero.
pub fn new_registration(dto: CreateRegistrationRequest, now: Timestamp) -> (r: RegistrationEntity)
    ensures
        r.id == 0,
        r.conference_id == dto.conference_id,
        r.status@ == "submitted"@,
        r.cost == given_or_keep(dto.cost, Money { mantissa: 0, scale: 0 }),
        r.discount_code == dto.discount_code,
        r.discount_amount == given_or_keep(dto.discount_amount, Money { mantissa: 0, scale: 0 }),
        r.amount_paid == (Money { mantissa: 0, scale: 0 }),
        r.created_by_id == dto.created_by_id,
        r.referrer is None,
        r.notes_internal == dto.notes_internal,
        r.created_at == now,
        r.updated_at == now,
{
    RegistrationEntity {
        id: 0,
        conference_id: dto.conference_id,
        status: String::from_str(RegistrationStatus::Submitted.as_str()),
        cost: unwrap_or_stored(dto.cost, Money::zero()),
        discount_code: dto.discount_code,
        discount_amount: unwrap_or_stored(dto.discount_amount, Money::zero()),
        amount_paid: Money::zero(),
        created_by_id: dto.created_by_id,
        referrer: None,
        notes_internal: dto.notes_internal,
        created_at: now,
        updated_at: now,
    }
}

/// The stored registration with the requested changes.
pub fn updated_registration(stored: RegistrationEntity, dto: UpdateRegistrationRequest, now: Timestamp) -> (r:
    RegistrationEntity)
    ensures
        r == (RegistrationEntity {
            cost: given_or_keep(dto.cost, stored.cost),
            discount_code: given_or(dto.discount_code, stored.discount_code),
            discount_amount: given_or_keep(dto.discount_amount, stored.discount_amount),
            notes_internal: given_or(dto.notes_internal, stored.notes_internal),
            updated_at: now,
            ..stored
        }),
{
    RegistrationEntity {
        cost: unwrap_or_stored(dto.cost, stored.cost),
        discount_code: or_stored(dto.discount_code, stored.discount_code),
        discount_amount: unwrap_or_stored(dto.discount_amount, stored.discount_amount),
        notes_internal: or_stored(dto.notes_internal, stored.notes_internal),
        updated_at: now,
        ..stored
    }
}

/// The status asked for, read from its name; an unknown name is refused with
/// "unknown status: " and the name.
pub fn requested_status(dto: &TransitionStatusRequest) -> (r: Result<RegistrationStatus, AppError>)
    ensures
        match RegistrationStatus::spec_parse(dto.status@) {
            Ok(s) => r == Ok::<RegistrationStatus, AppError>(s),
            Err(_) => r matches Err(AppError::Validation(m)) && m@ == "unknown status: "@ + dto.status@,
        },
{
    match RegistrationStatus::try_from(dto.status.as_str()) {
        Ok(s) => Ok(s),
        Err(_) => {
            let mut m = String::from_str("unknown status: ");
            m.append(dto.status.as_str());
            Err(AppError::Validation(m))
        },
    }
}

/// The text of a refused move.
pub open spec fn transition_refusal_message(from: RegistrationStatus, to: RegistrationStatus) -> Seq<char> {
    "cannot transition from '"@ + from.spec_name() + "' to '"@ + to.spec_name() + "'"@
}

/// Moves a stored registration to `next`.  Its stored status is read back
/// (an unknown name counting as submitted); where the move is not allowed it
/// is refused and nothing is to be stored.
pub fn transition(stored: RegistrationEntity, next: RegistrationStatus, now: Timestamp) -> (r: Result<
    RegistrationEntity,
    AppError,
>)
    ensures
        ({
            let current = RegistrationStatus::spec_parse_or_submitted(stored.status@);
            if current.spec_can_transition_to(next) {
                r matches Ok(e) && e.status@ == next.spec_name() && e == (RegistrationEntity {
                    status: e.status,
                    updated_at: now,
                    ..stored
                })
            } else {
                r matches Err(AppError::Domain(DomainError::InvalidTransition(m))) && m@
                    == transition_refusal_message(current, next)
            }
        }),
{
    let current = match RegistrationStatus::try_from(stored.status.as_str()) {
        Ok(s) => s,
        Err(_) => RegistrationStatus::Submitted,
    };
    if !current.can_transition_to(&next) {
        let mut m = String::from_str("cannot transition from '");
        m.append(current.as_str());
        m.append("' to '");
        m.append(next.as_str());
        m.append("'");
        return Err(AppError::Domain(DomainError::InvalidTransition(m)));
    }
    Ok(RegistrationEntity { status: String::from_str(next.as_str()), updated_at: now, ..stored })
}

/// Adds a payment to what has been paid.  `None` where the decimal addition
/// overflows, where the sum cannot be held as a decimal.
pub fn record_payment(stored: RegistrationEntity, dto: RecordPaymentRequest, now: Timestamp) -> (r: Option<
    RegistrationEntity,
>)
    requires
        stored.amount_paid.wf(),
        dto.amount.wf(),
    ensures
        match stored.amount_paid.spec_add(dto.amount) {
            None => r is None,
            Some(paid) => r == Some(RegistrationEntity { amount_paid: paid, updated_at: now, ..stored }),
        },
        r matches Some(e) ==> e.amount_paid.wf(),
        stored.amount_paid.mantissa == 0 ==> r == Some(
            RegistrationEntity { amount_paid: dto.amount, updated_at: now, ..stored },
        ),
        r matches Some(e) ==> (stored.amount_paid.mantissa == 0 && dto.amount.mantissa != 0
            ==> spec_payment_status(e.amount_paid, e.cost) == (if dto.amount.spec_ge(stored.cost) {
            PaymentStatus::Paid
        } else {
            PaymentStatus::Partial
        })),
{
    match stored.amount_paid.checked_add(&dto.amount) {
        Some(paid) => Some(RegistrationEntity { amount_paid: paid, updated_at: now, ..stored }),
        None => None,
    }
}

} // verus!
