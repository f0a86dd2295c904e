//! Registering delegates at a chosen price without checks: one registration
//! at the tier's price, and for every delegate a new organization, a new
//! client and a participant, all in one transaction.  The storage work is
//! done by the caller; this module decides each next step.
use vstd::prelude::*;
use vstd::string::*;
use crate::clock::Timestamp;
use crate::delegate_registration::{DelegateInput, new_client_for, new_organization_for, new_participant_for};
use crate::error::AppError;
use crate::models::client::ClientEntity;
use crate::models::organization::OrganizationEntity;
use crate::models::participant::ParticipantEntity;
use crate::models::price_tier::PriceTier;
use crate::models::registration::{Registration, RegistrationEntity, RegistrationStatus, registration_from_entity};
use crate::money::Money;

verus! {

/// A request to register delegates at a given price tier.
#[derive(Debug, Clone)]
pub struct RegisterDelegateRequest {
    pub conference_id: u64,
    pub price_tier: PriceTier,
    pub discount_code: Option<String>,
    pub delegates: Vec<DelegateInput>,
}

/// What the registration waits for.
#[derive(Debug, Clone, Copy, PartialEq, Eq, Structural)]
pub enum DirectStage {
    AwaitTransaction,
    AwaitRegistrationCreated,
    AwaitOrganizationCreated { index: usize },
    AwaitClientCreated { index: usize },
    AwaitParticipantCreated { index: usize },
    AwaitCommit,
    Done,
}

/// The answer to the previous action.
#[derive(Debug)]
pub enum DirectEvent {
    TransactionBegun,
    RegistrationCreated(RegistrationEntity),
    OrganizationCreated(OrganizationEntity),
    ClientCreated(ClientEntity),
    ParticipantCreated,
    Committed,
    Failed(AppError),
}

/// What the caller is to do next; everything after `BeginTransaction` up
/// to `Commit` happens inside the transaction.
#[derive(Debug)]
pub enum DirectAction {
    BeginTransaction,
    CreateRegistration(RegistrationEntity),
    CreateOrganization(OrganizationEntity),
    CreateClient(ClientEntity),
    CreateParticipant(ParticipantEntity),
    Commit,
    Finish(Result<Registration, AppError>),
}

/// A registration in progress.
#[derive(Debug)]
pub struct DirectRegistrationFlow {
    pub request: RegisterDelegateRequest,
    pub registration: Option<RegistrationEntity>,
    pub stage: DirectStage,
}

/// The registration stored first: submitted, at the tier's price, with the
/// request's discount code, no discount amount, nothing paid, no creator.
pub open spec fn direct_registration_for(r: RegistrationEntity, request: RegisterDelegateRequest, now: Timestamp) -> bool {
    &&& r.id == 0
    &&& r.conference_id == request.conference_id
    &&& r.status@ == "submitted"@
    &&& r.cost == request.price_tier.price
    &&& r.discount_code == request.discount_code
    &&& r.discount_amount == Money { mantissa: 0, scale: 0 }
    &&& r.amount_paid == Money { mantissa: 0, scale: 0 }
    &&& r.created_by_id is None
    &&& r.referrer is None
    &&& r.notes_internal is None
    &&& r.created_at == now
    &&& r.updated_at == now
}

impl DirectRegistrationFlow {
    pub open spec fn delegates(self) -> Seq<DelegateInput> {
        self.request.delegates@
    }

    /// What holds at every stage.
    pub open spec fn inv(self) -> bool {
        let n = self.request.delegates@.len();
        match self.stage {
            DirectStage::AwaitTransaction => self.registration is None,
            DirectStage::AwaitRegistrationCreated => self.registration is None,
            DirectStage::AwaitOrganizationCreated { index } => index < n && self.registration is Some,
            DirectStage::AwaitClientCreated { index } => index < n && self.registration is Some,
            DirectStage::AwaitParticipantCreated { index } => index < n && self.registration is Some,
            DirectStage::AwaitCommit => self.registration is Some,
            DirectStage::Done => true,
        }
    }

    /// The event answers the action last asked for (or reports its failure).
    pub open spec fn expects(self, event: DirectEvent) -> bool {
        match event {
            DirectEvent::Failed(_) => !(self.stage is Done),
            DirectEvent::TransactionBegun => self.stage is AwaitTransaction,
            DirectEvent::RegistrationCreated(_) => self.stage is AwaitRegistrationCreated,
            DirectEvent::OrganizationCreated(_) => self.stage is AwaitOrganizationCreated,
            DirectEvent::ClientCreated(_) => self.stage is AwaitClientCreated,
            DirectEvent::ParticipantCreated => self.stage is AwaitParticipantCreated,
            DirectEvent::Committed => self.stage is AwaitCommit,
        }
    }

    /// The steps left at most before the registration is done.
    pub open spec fn remaining(self) -> int {
        let n = self.request.delegates@.len() as int;
        match self.stage {
            DirectStage::AwaitTransaction => 3 * n + 4,
            DirectStage::AwaitRegistrationCreated => 3 * n + 3,
            DirectStage::AwaitOrganizationCreated { index } => 3 * (n - index) + 1,
            DirectStage::AwaitClientCreated { index } => 3 * (n - index),
            DirectStage::AwaitParticipantCreated { index } => 3 * (n - index) - 1,
            DirectStage::AwaitCommit => 1,
            DirectStage::Done => 0,
        }
    }

    /// After the registration or a participant: the next delegate's
    /// organization, or the commit when all are done.
    pub open spec fn next_delegate(self, index: int, next: DirectRegistrationFlow, action: DirectAction, now: Timestamp) -> bool {
        if index < self.delegates().len() {
            &&& next == DirectRegistrationFlow {
                stage: DirectStage::AwaitOrganizationCreated { index: index as usize },
                ..self
            }
            &&& action matches DirectAction::CreateOrganization(o) && new_organization_for(o, self.delegates()[index], now)
        } else {
            &&& next == DirectRegistrationFlow { stage: DirectStage::AwaitCommit, ..self }
            &&& action == DirectAction::Commit
        }
    }

    /// What one step does with an answer.
    pub open spec fn step_post(self, event: DirectEvent, now: Timestamp, next: DirectRegistrationFlow, action: DirectAction) -> bool {
        match (self.stage, event) {
            (_, DirectEvent::Failed(e)) => next.stage is Done && action == DirectAction::Finish(Err(e)),
            (DirectStage::AwaitTransaction, DirectEvent::TransactionBegun) => {
                &&& next == DirectRegistrationFlow { stage: DirectStage::AwaitRegistrationCreated, ..self }
                &&& action matches DirectAction::CreateRegistration(r) && direct_registration_for(r, self.request, now)
            },
            (DirectStage::AwaitRegistrationCreated, DirectEvent::RegistrationCreated(reg)) => {
                DirectRegistrationFlow { registration: Some(reg), ..self }.next_delegate(0, next, action, now)
            },
            (DirectStage::AwaitOrganizationCreated { index }, DirectEvent::OrganizationCreated(org)) => {
                &&& next == DirectRegistrationFlow { stage: DirectStage::AwaitClientCreated { index }, ..self }
                &&& action matches DirectAction::CreateClient(c) && new_client_for(c, self.delegates()[index as int], org.id, now)
            },
            (DirectStage::AwaitClientCreated { index }, DirectEvent::ClientCreated(c)) => {
                &&& next == DirectRegistrationFlow { stage: DirectStage::AwaitParticipantCreated { index }, ..self }
                &&& action matches DirectAction::CreateParticipant(p) && new_participant_for(
                    p,
                    self.registration->0.id,
                    c.id,
                    self.delegates()[index as int],
                    now,
                )
            },
            (DirectStage::AwaitParticipantCreated { index }, DirectEvent::ParticipantCreated) => {
                self.next_delegate(index + 1, next, action, now)
            },
            (DirectStage::AwaitCommit, DirectEvent::Committed) => {
                &&& next.stage is Done
                &&& action == DirectAction::Finish(Ok(registration_from_entity(self.registration->0)))
            },
            _ => false,
        }
    }

    /// Starts the registration: the transaction is opened first.
    pub fn new(request: RegisterDelegateRequest) -> (r: (DirectRegistrationFlow, DirectAction))
        ensures
            r.0 == (DirectRegistrationFlow { request, registration: None, stage: DirectStage::AwaitTransaction }),
            r.1 == DirectAction::BeginTransaction,
            r.0.inv(),
    {
        (DirectRegistrationFlow { request, registration: None, stage: DirectStage::AwaitTransaction }, DirectAction::BeginTransaction)
    }

    fn organization_step(flow: DirectRegistrationFlow, index: usize, now: Timestamp) -> (r: (DirectRegistrationFlow, DirectAction))
        requires
            flow.registration is Some,
        ensures
            flow.next_delegate(index as int, r.0, r.1, now),
    {
        let mut flow = flow;
        if index < flow.request.delegates.len() {
            let d = &flow.request.delegates[index];
            let o = OrganizationEntity {
                id: 0,
                name: d.organization_name.clone(),
                website: None,
                phone: None,
                billing_email: d.email.clone(),
                created_at: now,
                updated_at: now,
            };
            flow.stage = DirectStage::AwaitOrganizationCreated { index };
            (flow, DirectAction::CreateOrganization(o))
        } else {
            flow.stage = DirectStage::AwaitCommit;
            (flow, DirectAction::Commit)
        }
    }

    /// Takes the answer to the last action and decides the next one.
    pub fn step(self, event: DirectEvent, now: Timestamp) -> (r: (DirectRegistrationFlow, DirectAction))
        requires
            self.inv(),
            self.expects(event),
        ensures
            self.step_post(event, now, r.0, r.1),
            r.0.inv(),
            r.0.remaining() < self.remaining(),
    {
        let mut flow = self;
        let stage = flow.stage;
        match event {
            DirectEvent::Failed(e) => {
                flow.stage = DirectStage::Done;
                (flow, DirectAction::Finish(Err(e)))
            },
            DirectEvent::TransactionBegun => {
                let reg = RegistrationEntity {
                    id: 0,
                    conference_id: flow.request.conference_id,
                    status: String::from_str(RegistrationStatus::Submitted.as_str()),
                    cost: flow.request.price_tier.price,
                    discount_code: match &flow.request.discount_code {
                        Some(c) => Some(c.clone()),
                        None => None,
                    },
                    discount_amount: Money::zero(),
                    amount_paid: Money::zero(),
                    created_by_id: None,
                    referrer: None,
                    notes_internal: None,
                    created_at: now,
                    updated_at: now,
                };
                flow.stage = DirectStage::AwaitRegistrationCreated;
                (flow, DirectAction::CreateRegistration(reg))
            },
            DirectEvent::RegistrationCreated(reg) => {
                flow.registration = Some(reg);
                Self::organization_step(flow, 0, now)
            },
            DirectEvent::OrganizationCreated(org) => {
                let index = match stage {
                    DirectStage::AwaitOrganizationCreated { index } => index,
                    _ => 0,
                };
                let d = &flow.request.delegates[index];
                let c = ClientEntity {
                    id: 0,
                    organization_id: Some(org.id),
                    first_name: d.first_name.clone(),
                    last_name: d.last_name.clone(),
                    email: d.email.clone(),
                    created_at: now,
                    updated_at: now,
                };
                flow.stage = DirectStage::AwaitClientCreated { index };
                (flow, DirectAction::CreateClient(c))
            },
            DirectEvent::ClientCreated(c) => {
                let index = match stage {
                    DirectStage::AwaitClientCreated { index } => index,
                    _ => 0,
                };
                let registration_id = match &flow.registration {
                    Some(reg) => reg.id,
                    None => 0,
                };
                let d = &flow.request.delegates[index];
                let p = ParticipantEntity {
                    id: 0,
                    registration_id,
                    client_id: c.id,
                    participant_role: String::from_str("delegate"),
                    dietary_requirements: Some(d.dietary_requirements.clone()),
                    accessibility_needs: None,
                    created_at: now,
                    updated_at: now,
                };
                flow.stage = DirectStage::AwaitParticipantCreated { index };
                (flow, DirectAction::CreateParticipant(p))
            },
            DirectEvent::ParticipantCreated => {
                let index = match stage {
                    DirectStage::AwaitParticipantCreated { index } => index,
                    _ => 0,
                };
                let n = flow.request.delegates.len();
                assert(index < n);
                Self::organization_step(flow, index + 1, now)
            },
            DirectEvent::Committed => {
                let reg = match flow.registration {
                    Some(reg) => reg,
                    None => RegistrationEntity {
                        id: 0,
                        conference_id: 0,
                        status: String::new(),
                        cost: Money::zero(),
                        discount_code: None,
                        discount_amount: Money::zero(),
                        amount_paid: Money::zero(),
                        created_by_id: None,
                        referrer: None,
                        notes_internal: None,
                        created_at: now,
                        updated_at: now,
                    },
                };
                flow.registration = None;
                flow.stage = DirectStage::Done;
                (flow, DirectAction::Finish(Ok(Registration::from(reg))))
            },
        }
    }
}

/// The transaction is committed only once every delegate has become a
/// participant: right after the last one, or right after the registration
/// when there are no delegates.
pub proof fn direct_commit_follows_last_participant(
    flow: DirectRegistrationFlow,
    event: DirectEvent,
    now: Timestamp,
    next: DirectRegistrationFlow,
    action: DirectAction,
)
    requires
        flow.inv(),
        flow.expects(event),
        flow.step_post(event, now, next, action),
        action == DirectAction::Commit,
    ensures
        match flow.stage {
            DirectStage::AwaitParticipantCreated { index } => event == DirectEvent::ParticipantCreated && index + 1
                == flow.delegates().len(),
            DirectStage::AwaitRegistrationCreated => event is RegistrationCreated && flow.delegates().len() == 0,
            _ => false,
        },
        next.stage == DirectStage::AwaitCommit,
{
}

/// The registration, organizations, clients and participants created
/// directly carry the request and each delegate's own details: the
/// registration the conference, the tier's price and the code; an
/// organization the delegate's organization name and billing email; a
/// client the delegate's names and email in the organization just created;
/// a participant the delegate's dietary requirements, the client just
/// created and the registration.
pub proof fn direct_records_are_the_delegates(
    flow: DirectRegistrationFlow,
    event: DirectEvent,
    now: Timestamp,
    next: DirectRegistrationFlow,
    action: DirectAction,
)
    requires
        flow.inv(),
        flow.delegates().len() <= usize::MAX,
        flow.expects(event),
        flow.step_post(event, now, next, action),
    ensures
        action matches DirectAction::CreateRegistration(r) ==> {
            &&& r.conference_id == flow.request.conference_id
            &&& r.cost == flow.request.price_tier.price
            &&& r.discount_code == flow.request.discount_code
            &&& r.discount_amount == Money { mantissa: 0, scale: 0 }
            &&& r.amount_paid == Money { mantissa: 0, scale: 0 }
            &&& r.status@ == "submitted"@
        },
        action matches DirectAction::CreateOrganization(o) ==> next.stage matches DirectStage::AwaitOrganizationCreated {
            index,
        } && {
            let d = flow.delegates()[index as int];
            &&& o.id == 0
            &&& o.name == d.organization_name
            &&& o.billing_email == d.email
        },
        action matches DirectAction::CreateClient(c) ==> flow.stage matches DirectStage::AwaitOrganizationCreated {
            index,
        } && event matches DirectEvent::OrganizationCreated(org) && {
            let d = flow.delegates()[index as int];
            &&& c.id == 0
            &&& c.first_name == d.first_name
            &&& c.last_name == d.last_name
            &&& c.email == d.email
            &&& c.organization_id == Some(org.id)
        },
        action matches DirectAction::CreateParticipant(p) ==> flow.stage matches DirectStage::AwaitClientCreated {
            index,
        } && event matches DirectEvent::ClientCreated(c) && {
            let d = flow.delegates()[index as int];
            &&& p.id == 0
            &&& p.registration_id == flow.registration->0.id
            &&& p.client_id == c.id
            &&& p.participant_role@ == "delegate"@
            &&& p.dietary_requirements == Some(d.dietary_requirements)
        },
{
}

} // verus!
