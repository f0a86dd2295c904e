//! Registering a group of delegates for a conference.
//!
//! The request is checked against the conference, the chosen price tier and
//! the group discount code, priced, and then written in one transaction: an
//! organization and a client for each delegate (reusing those that exist),
//! one registration created by the first delegate, and a participant for
//! each delegate.  The storage work is done by the caller; this module decides
//! each next step from the answer to the previous one.
use vstd::prelude::*;
use vstd::string::*;
use crate::clock::{Date, Timestamp};
use crate::error::AppError;
use crate::models::client::ClientEntity;
use crate::models::conference::ConferenceEntity;
use crate::models::group_discount::GroupDiscountEntity;
use crate::models::organization::OrganizationEntity;
use crate::models::participant::ParticipantEntity;
use crate::models::price_tier::PriceTierEntity;
use crate::models::participant::ParticipantRole;
use crate::models::registration::{Registration, RegistrationEntity, RegistrationStatus, registration_from_entity};
use crate::money::{abs, pow10, Money, MAX_MANTISSA};
use crate::text::{decimal_digits, u32_to_string};

verus! {

/// One delegate of a group registration.
#[derive(Debug, Clone)]
pub struct DelegateInput {
    pub first_name: String,
    pub last_name: String,
    pub email: String,
    pub organization_name: String,
    pub dietary_requirements: String,
}

/// A request to register a group of delegates.
#[derive(Debug, Clone)]
pub struct DelegateRegistrationRequest {
    pub conference_id: u64,
    pub price_tier_id: u64,
    pub group_discount_code: Option<String>,
    pub delegates: Vec<DelegateInput>,
    pub referrer: String,
}

/// Why a group registration is refused.
#[derive(Debug, Clone, Copy, PartialEq, Eq, Structural)]
pub enum RegistrationRefusal {
    NotOpen,
    TierOfOtherConference,
    TierExpired,
    InvalidCode,
    CodeOfOtherConference,
    CodeInactive,
    CodeExpired,
    TooFewDelegates(u32),
    NoDelegates,
}

impl RegistrationRefusal {
    /// The text the refusal is answered with.
    pub open spec fn spec_message(self) -> Seq<char> {
        match self {
            RegistrationRefusal::NotOpen => "Registrations are not open for this conference"@,
            RegistrationRefusal::TierOfOtherConference => "The selected price tier does not belong to this conference."@,
            RegistrationRefusal::TierExpired => "The selected price tier has expired. Please select a valid one."@,
            RegistrationRefusal::InvalidCode => "Invalid group discount code."@,
            RegistrationRefusal::CodeOfOtherConference => "This discount code is not valid for this conference."@,
            RegistrationRefusal::CodeInactive => "This discount code is no longer active."@,
            RegistrationRefusal::CodeExpired => "This discount code has expired"@,
            RegistrationRefusal::TooFewDelegates(n) => "A minimum of "@ + decimal_digits(n as nat)
                + " delegates is required to use this discount."@,
            RegistrationRefusal::NoDelegates => "Delegates is an empty list"@,
        }
    }

    /// The text the refusal is answered with.
    pub fn message(&self) -> (r: String)
        ensures
            r@ == self.spec_message(),
    {
        match self {
            RegistrationRefusal::NotOpen => String::from_str("Registrations are not open for this conference"),
            RegistrationRefusal::TierOfOtherConference => String::from_str(
                "The selected price tier does not belong to this conference.",
            ),
            RegistrationRefusal::TierExpired => String::from_str(
                "The selected price tier has expired. Please select a valid one.",
            ),
            RegistrationRefusal::InvalidCode => String::from_str("Invalid group discount code."),
            RegistrationRefusal::CodeOfOtherConference => String::from_str(
                "This discount code is not valid for this conference.",
            ),
            RegistrationRefusal::CodeInactive => String::from_str("This discount code is no longer active."),
            RegistrationRefusal::CodeExpired => String::from_str("This discount code has expired"),
            RegistrationRefusal::TooFewDelegates(n) => {
                let mut r = String::from_str("A minimum of ");
                let digits = u32_to_string(*n);
                r.append(digits.as_str());
                r.append(" delegates is required to use this discount.");
                r
            },
            RegistrationRefusal::NoDelegates => String::from_str("Delegates is an empty list"),
        }
    }

    /// The refusal as the error the request is answered with.
    pub fn into_error(self) -> (r: AppError)
        ensures
            r matches AppError::Validation(m) && m@ == self.spec_message(),
    {
        AppError::Validation(self.message())
    }
}

/// The price of a group: what was priced (the price of a place, the number
/// of places and how many of them are free), the discount granted and the
/// total owed.
#[derive(Debug, Clone)]
pub struct Quote {
    pub price: Money,
    pub places: u64,
    pub free_places: u32,
    pub discount_code: Option<String>,
    pub discount_amount: Money,
    pub total_cost: Money,
}

impl Quote {
    /// Where the products fit, the discount is the price of the free places
    /// and the total the price of the others.
    pub open spec fn is_exact(self) -> bool {
        quote_fits(self.price, self.places as int, self.free_places as int) ==> {
            &&& self.discount_amount.denotes(self.price.mantissa * self.free_places, self.price.scale)
            &&& self.total_cost.denotes(self.price.mantissa * (self.places - self.free_places), self.price.scale)
        }
    }
}

/// The discount for `free` free places at `price` each (none without a
/// discount), and the total for `count` places less that discount; `None`
/// where the decimal arithmetic overflows.
pub open spec fn spec_quote_amounts(price: Money, count: u64, free: Option<u32>) -> Option<(Money, Money)> {
    let discount = match free {
        Some(f) => (Money { mantissa: f as i128, scale: 0 }).spec_mul(price),
        None => Some(Money { mantissa: 0, scale: 0 }),
    };
    match discount {
        None => None,
        Some(d) => match price.spec_mul(Money { mantissa: count as i128, scale: 0 }) {
            None => None,
            Some(gross) => match gross.spec_sub(d) {
                None => None,
                Some(total) => Some((d, total)),
            },
        },
    }
}

/// An amount that is zero at scale 0 where `m` is zero, and `m` at scale `s`
/// otherwise.
pub open spec fn product_at(a: Money, m: int, s: u32) -> bool {
    if m == 0 {
        a == Money { mantissa: 0, scale: 0 }
    } else {
        a.mantissa == m && a.scale == s
    }
}

/// Where the products fit, subtracting the discount from the gross price
/// does not overflow.
proof fn lemma_group_total_fits(price: Money, count: int, free: int, gross: Money, discount: Money)
    requires
        0 <= count,
        0 <= free,
        quote_fits(price, count, free),
        product_at(gross, price.mantissa * count, price.scale),
        product_at(discount, price.mantissa * free, price.scale),
    ensures
        gross.mantissa != 0 && discount.mantissa != 0 ==> gross.scale == discount.scale && abs(
            gross.mantissa - discount.mantissa,
        ) <= MAX_MANTISSA,
{
    if gross.mantissa != 0 && discount.mantissa != 0 {
        let p = price.mantissa as int;
        assert(gross.mantissa - discount.mantissa == p * (count - free)) by (nonlinear_arith)
            requires
                gross.mantissa == p * count,
                discount.mantissa == p * free,
        ;
        if free <= count {
            assert(abs(p * (count - free)) <= abs(p * count)) by (nonlinear_arith)
                requires
                    0 <= free <= count,
            ;
        } else {
            assert(abs(p * (count - free)) <= abs(p * free)) by (nonlinear_arith)
                requires
                    0 <= count < free,
            ;
        }
    }
}

/// Where the products fit, the total of a group denotes the price of the
/// places that are not free, and the discount the price of the free ones.
proof fn lemma_group_total_exact(price: Money, count: int, free: int, gross: Money, discount: Money, total: Money)
    requires
        price.wf(),
        0 <= count,
        0 <= free,
        quote_fits(price, count, free),
        product_at(gross, price.mantissa * count, price.scale),
        product_at(discount, price.mantissa * free, price.scale),
        gross.mantissa == 0 ==> total == (Money { mantissa: (-discount.mantissa) as i128, scale: discount.scale }),
        gross.mantissa != 0 && discount.mantissa == 0 ==> total == gross,
        gross.mantissa != 0 && discount.mantissa != 0 ==> total == (Money {
            mantissa: (gross.mantissa - discount.mantissa) as i128,
            scale: price.scale,
        }),
    ensures
        discount.denotes(price.mantissa * free, price.scale),
        total.denotes(price.mantissa * (count - free), price.scale),
{
    let p = price.mantissa as int;
    assert(p * (count - free) == p * count - p * free) by (nonlinear_arith);
    assert(pow10(0) == 1);
    assert(0 * pow10(price.scale as nat) == 0);
}

/// The number of free places a discount grants (none without one).
pub open spec fn free_places(discount: Option<(u32, String)>) -> int {
    match discount {
        Some(d) => d.0 as int,
        None => 0,
    }
}

/// The price of a place times the number of places, and times the number of
/// free places, both fit a decimal's mantissa.
pub open spec fn quote_fits(price: Money, count: int, free: int) -> bool {
    &&& abs(price.mantissa * count) <= MAX_MANTISSA
    &&& abs(price.mantissa * free) <= MAX_MANTISSA
}

/// Prices `count` places at `price`, with `free` of them free when a discount
/// code applies.  `None` where the decimal arithmetic overflows.  Where the
/// products fit, the arithmetic is exact: the discount is the price of the
/// free places and the group pays for the others.
pub fn quote(price: Money, count: u64, discount: Option<(u32, String)>) -> (r: Option<Quote>)
    requires
        price.wf(),
    ensures
        ({
            let free = free_places(discount);
            quote_fits(price, count as int, free) ==> (r matches Some(q) && q.discount_amount.denotes(
                price.mantissa * free,
                price.scale,
            ) && q.total_cost.denotes(price.mantissa * (count - free), price.scale))
        }),
        ({
            let free = match discount {
                Some(d) => Some(d.0),
                None => None,
            };
            match spec_quote_amounts(price, count, free) {
                None => r is None,
                Some(amounts) => r matches Some(q) && q.discount_amount == amounts.0 && q.total_cost
                    == amounts.1 && q.discount_code == (match discount {
                    Some(d) => Some(d.1),
                    None => None,
                }),
            }
        }),
        r matches Some(q) ==> q.discount_amount.wf() && q.total_cost.wf(),
        r matches Some(q) ==> q.price == price && q.places == count && q.free_places == free_places(discount)
            && q.is_exact(),
{
    let ghost free_g = free_places(discount);
    let ghost fits = quote_fits(price, count as int, free_g);
    proof {
        if fits {
            assert(price.mantissa * free_g == free_g * price.mantissa) by (nonlinear_arith);
            assert(price.mantissa * count == count * price.mantissa) by (nonlinear_arith);
        }
    }
    let (discount_amount, discount_code, free_places) = match discount {
        Some((free, code)) => {
            let free_amount = Money::from_u64(free as u64);
            match free_amount.checked_mul(&price) {
                Some(d) => (d, Some(code), free),
                None => {
                    return None;
                },
            }
        },
        None => (Money::zero(), None, 0),
    };
    let gross = match price.checked_mul(&Money::from_u64(count)) {
        Some(g) => g,
        None => {
            return None;
        },
    };
    proof {
        if fits {
            lemma_group_total_fits(price, count as int, free_g, gross, discount_amount);
            if gross.mantissa != 0 && discount_amount.mantissa != 0 {
                assert(pow10(0) == 1);
                assert(gross.scaled(price.scale) == gross.mantissa);
                assert(discount_amount.scaled(price.scale) == discount_amount.mantissa);
            }
        }
    }
    match gross.checked_sub(&discount_amount) {
        Some(total_cost) => {
            proof {
                if fits {
                    lemma_group_total_exact(price, count as int, free_g, gross, discount_amount, total_cost);
                }
            }
            Some(Quote { price, places: count, free_places, discount_code, discount_amount, total_cost })
        },
        None => None,
    }
}

/// Where a group registration is: what it waits for.
#[derive(Debug, Clone, Copy, PartialEq, Eq, Structural)]
pub enum RegistrationStage {
    AwaitConference,
    AwaitPriceTier { group_discount_id: Option<u64> },
    AwaitGroupDiscount { group_discount_id: Option<u64>, price: Money },
    AwaitTransaction,
    AwaitOrganization { index: usize },
    AwaitOrganizationCreated { index: usize },
    AwaitClient { index: usize, organization_id: u64 },
    AwaitClientCreated { index: usize },
    AwaitRegistrationCreated { client_id: u64 },
    AwaitParticipantCreated { index: usize },
    AwaitCommit,
    Done,
}

/// The answer to the previous action.
#[derive(Debug)]
pub enum RegistrationEvent {
    ConferenceLoaded(ConferenceEntity),
    PriceTierLoaded(PriceTierEntity),
    GroupDiscountFound(Option<GroupDiscountEntity>),
    TransactionBegun,
    OrganizationFound(Option<OrganizationEntity>),
    OrganizationCreated(OrganizationEntity),
    ClientFound(Option<ClientEntity>),
    ClientCreated(ClientEntity),
    RegistrationCreated(RegistrationEntity),
    ParticipantCreated,
    Committed,
    Failed(AppError),
}

/// What the caller is to do next.  Everything from `FindOrganization` to
/// `Commit` happens inside the transaction.
#[derive(Debug)]
pub enum RegistrationAction {
    LoadConference(u64),
    LoadPriceTier(u64),
    FindGroupDiscount(String),
    BeginTransaction,
    FindOrganization(String),
    CreateOrganization(OrganizationEntity),
    FindClient(String),
    CreateClient(ClientEntity),
    CreateRegistration(RegistrationEntity),
    CreateParticipant(ParticipantEntity),
    Commit,
    Finish(Result<Registration, AppError>),
}

/// A group registration in progress.
#[derive(Debug)]
pub struct RegisterDelegatesFlow {
    pub request: DelegateRegistrationRequest,
    pub quote: Option<Quote>,
    pub registration: Option<RegistrationEntity>,
    pub stage: RegistrationStage,
}

/// A new organization for a delegate: named after the delegate's
/// organization, billed to the delegate's email.
pub open spec fn new_organization_for(e: OrganizationEntity, d: DelegateInput, now: Timestamp) -> bool {
    &&& e.id == 0
    &&& e.name == d.organization_name
    &&& e.website is None
    &&& e.phone is None
    &&& e.billing_email == d.email
    &&& e.created_at == now
    &&& e.updated_at == now
}

/// A new client for a delegate, in the given organization.
pub open spec fn new_client_for(c: ClientEntity, d: DelegateInput, organization_id: u64, now: Timestamp) -> bool {
    &&& c.id == 0
    &&& c.organization_id == Some(organization_id)
    &&& c.first_name == d.first_name
    &&& c.last_name == d.last_name
    &&& c.email == d.email
    &&& c.created_at == now
    &&& c.updated_at == now
}

/// A new participant: the delegate, as the given client, in the given
/// registration, with the role of delegate.
pub open spec fn new_participant_for(
    p: ParticipantEntity,
    registration_id: u64,
    client_id: u64,
    d: DelegateInput,
    now: Timestamp,
) -> bool {
    &&& p.id == 0
    &&& p.registration_id == registration_id
    &&& p.client_id == client_id
    &&& p.participant_role@ == "delegate"@
    &&& p.dietary_requirements == Some(d.dietary_requirements)
    &&& p.accessibility_needs is None
    &&& p.created_at == now
    &&& p.updated_at == now
}

/// The new registration: submitted, for the quoted cost and discount,
/// nothing paid, created by the first delegate's client, with the referrer.
pub open spec fn new_registration_for(
    r: RegistrationEntity,
    request: DelegateRegistrationRequest,
    q: Quote,
    creator_id: u64,
    now: Timestamp,
) -> bool {
    &&& r.id == 0
    &&& r.conference_id == request.conference_id
    &&& r.status@ == "submitted"@
    &&& r.cost == q.total_cost
    &&& r.discount_code == q.discount_code
    &&& r.discount_amount == q.discount_amount
    &&& r.amount_paid == Money { mantissa: 0, scale: 0 }
    &&& r.created_by_id == Some(creator_id)
    &&& r.referrer == Some(request.referrer)
    &&& r.notes_internal is None
    &&& r.created_at == now
    &&& r.updated_at == now
}

/// The flow has ended with a refusal.
pub open spec fn refused(next: RegisterDelegatesFlow, action: RegistrationAction, why: RegistrationRefusal) -> bool {
    &&& next.stage is Done
    &&& action matches RegistrationAction::Finish(Err(AppError::Validation(m)))
    &&& m@ == why.spec_message()
}

impl RegisterDelegatesFlow {
    /// The delegates of the request.
    pub open spec fn delegates(self) -> Seq<DelegateInput> {
        self.request.delegates@
    }

    /// The number of delegates, as the count that is priced.
    pub open spec fn count(self) -> u64 {
        self.request.delegates@.len() as u64
    }

    /// What holds of the flow at every stage.
    pub open spec fn inv(self) -> bool {
        let n = self.request.delegates@.len();
        &&& n <= u64::MAX
        &&& (self.quote matches Some(q) ==> q.is_exact() && q.places == n)
        &&& match self.stage {
            RegistrationStage::AwaitConference => self.quote is None && self.registration is None,
            RegistrationStage::AwaitPriceTier { .. } => self.quote is None && self.registration is None,
            RegistrationStage::AwaitGroupDiscount { price, .. } => {
                &&& self.quote is None
                &&& self.registration is None
                &&& self.request.group_discount_code is Some
                &&& price.wf()
            },
            RegistrationStage::AwaitTransaction => self.quote is Some && self.registration is None,
            RegistrationStage::AwaitOrganization { index } => index < n && (if index == 0 {
                self.quote is Some && self.registration is None
            } else {
                self.registration is Some
            }),
            RegistrationStage::AwaitOrganizationCreated { index } => index < n && (if index == 0 {
                self.quote is Some && self.registration is None
            } else {
                self.registration is Some
            }),
            RegistrationStage::AwaitClient { index, .. } => index < n && (if index == 0 {
                self.quote is Some && self.registration is None
            } else {
                self.registration is Some
            }),
            RegistrationStage::AwaitClientCreated { index } => index < n && (if index == 0 {
                self.quote is Some && self.registration is None
            } else {
                self.registration is Some
            }),
            RegistrationStage::AwaitRegistrationCreated { .. } => 0 < n && self.registration is None,
            RegistrationStage::AwaitParticipantCreated { index } => index < n && self.registration is Some,
            RegistrationStage::AwaitCommit => self.registration is Some,
            RegistrationStage::Done => true,
        }
    }

    /// The event answers the action last asked for (or reports its failure).
    pub open spec fn expects(self, event: RegistrationEvent) -> bool {
        match event {
            RegistrationEvent::Failed(_) => !(self.stage is Done),
            RegistrationEvent::ConferenceLoaded(_) => self.stage is AwaitConference,
            RegistrationEvent::PriceTierLoaded(t) => self.stage is AwaitPriceTier && t.price.wf(),
            RegistrationEvent::GroupDiscountFound(_) => self.stage is AwaitGroupDiscount,
            RegistrationEvent::TransactionBegun => self.stage is AwaitTransaction,
            RegistrationEvent::OrganizationFound(_) => self.stage is AwaitOrganization,
            RegistrationEvent::OrganizationCreated(_) => self.stage is AwaitOrganizationCreated,
            RegistrationEvent::ClientFound(_) => self.stage is AwaitClient,
            RegistrationEvent::ClientCreated(_) => self.stage is AwaitClientCreated,
            RegistrationEvent::RegistrationCreated(_) => self.stage is AwaitRegistrationCreated,
            RegistrationEvent::ParticipantCreated => self.stage is AwaitParticipantCreated,
            RegistrationEvent::Committed => self.stage is AwaitCommit,
        }
    }

    /// The steps left at most before the flow is done.
    pub open spec fn remaining(self) -> int {
        let n = self.request.delegates@.len() as int;
        match self.stage {
            RegistrationStage::AwaitConference => 7 * n + 20,
            RegistrationStage::AwaitPriceTier { .. } => 7 * n + 19,
            RegistrationStage::AwaitGroupDiscount { .. } => 7 * n + 18,
            RegistrationStage::AwaitTransaction => 7 * n + 17,
            RegistrationStage::AwaitOrganization { index } => 7 * (n - index) + 10,
            RegistrationStage::AwaitOrganizationCreated { index } => 7 * (n - index) + 9,
            RegistrationStage::AwaitClient { index, .. } => 7 * (n - index) + 8,
            RegistrationStage::AwaitClientCreated { index } => 7 * (n - index) + 7,
            RegistrationStage::AwaitRegistrationCreated { .. } => 7 * n + 6,
            RegistrationStage::AwaitParticipantCreated { index } => 7 * (n - index) + 5,
            RegistrationStage::AwaitCommit => 1,
            RegistrationStage::Done => 0,
        }
    }

    /// The step prices the group and the decimal arithmetic overflows (where
    /// the checks before pricing all pass).
    pub open spec fn pricing_overflows(self, event: RegistrationEvent, now: Timestamp, today: Date) -> bool {
        match (self.stage, event) {
            (RegistrationStage::AwaitPriceTier { .. }, RegistrationEvent::PriceTierLoaded(t)) => {
                &&& t.conference_id == self.request.conference_id
                &&& today.spec_not_after(t.deadline)
                &&& self.request.group_discount_code is None
                &&& spec_quote_amounts(t.price, self.count(), None) is None
            },
            (
                RegistrationStage::AwaitGroupDiscount { group_discount_id, price },
                RegistrationEvent::GroupDiscountFound(Some(g)),
            ) => {
                &&& group_discount_id == Some(g.id)
                &&& g.active != 0
                &&& !(g.valid_until matches Some(v) && now.spec_after(v))
                &&& self.request.delegates@.len() >= g.min_quantity
                &&& spec_quote_amounts(price, self.count(), Some(g.free_quantity)) is None
            },
            _ => false,
        }
    }

    /// The group is priced and the transaction is asked for.
    pub open spec fn priced(
        self,
        next: RegisterDelegatesFlow,
        action: RegistrationAction,
        price: Money,
        free: Option<u32>,
    ) -> bool {
        let amounts = spec_quote_amounts(price, self.count(), free);
        let pair = amounts->0;
        &&& amounts is Some
        &&& next.stage == RegistrationStage::AwaitTransaction
        &&& next.request == self.request
        &&& next.registration == self.registration
        &&& next.quote matches Some(q) && q.discount_amount == pair.0 && q.total_cost == pair.1
            && q.discount_code == (if free is Some {
            self.request.group_discount_code
        } else {
            None
        })
        &&& action == RegistrationAction::BeginTransaction
        &&& next.quote matches Some(q) && q.price == price && q.places == self.count() && q.free_places == (
            match free {
            Some(f) => f,
            None => 0u32,
        })
        &&& ({
            let f: int = match free {
                Some(f) => f as int,
                None => 0,
            };
            quote_fits(price, self.count() as int, f) ==> (next.quote matches Some(q)
                && q.discount_amount.denotes(price.mantissa * f, price.scale) && q.total_cost.denotes(
                price.mantissa * (self.count() - f),
                price.scale,
            ))
        })
    }

    /// The client of delegate `index` is known: the first one creates the
    /// registration, the others become participants of it.
    pub open spec fn client_resolved(
        self,
        index: usize,
        client_id: u64,
        next: RegisterDelegatesFlow,
        action: RegistrationAction,
        now: Timestamp,
    ) -> bool {
        if index == 0 {
            &&& next == RegisterDelegatesFlow {
                stage: RegistrationStage::AwaitRegistrationCreated { client_id },
                quote: None,
                ..self
            }
            &&& action matches RegistrationAction::CreateRegistration(r) && new_registration_for(
                r,
                self.request,
                self.quote->0,
                client_id,
                now,
            )
        } else {
            &&& next == RegisterDelegatesFlow {
                stage: RegistrationStage::AwaitParticipantCreated { index },
                ..self
            }
            &&& action matches RegistrationAction::CreateParticipant(p) && new_participant_for(
                p,
                self.registration->0.id,
                client_id,
                self.delegates()[index as int],
                now,
            )
        }
    }

    /// What one step does with an answer.
    pub open spec fn step_post(
        self,
        event: RegistrationEvent,
        now: Timestamp,
        today: Date,
        next: RegisterDelegatesFlow,
        action: RegistrationAction,
    ) -> bool {
        match (self.stage, event) {
            (_, RegistrationEvent::Failed(e)) => next.stage is Done && action == RegistrationAction::Finish(
                Err(e),
            ),
            (RegistrationStage::AwaitConference, RegistrationEvent::ConferenceLoaded(c)) => if c.published
                == 0 {
                refused(next, action, RegistrationRefusal::NotOpen)
            } else {
                &&& next == RegisterDelegatesFlow {
                    stage: RegistrationStage::AwaitPriceTier { group_discount_id: c.group_discount_id },
                    ..self
                }
                &&& action == RegistrationAction::LoadPriceTier(self.request.price_tier_id)
            },
            (RegistrationStage::AwaitPriceTier { group_discount_id }, RegistrationEvent::PriceTierLoaded(t)) => {
                if t.conference_id != self.request.conference_id {
                    refused(next, action, RegistrationRefusal::TierOfOtherConference)
                } else if !today.spec_not_after(t.deadline) {
                    refused(next, action, RegistrationRefusal::TierExpired)
                } else {
                    match self.request.group_discount_code {
                        Some(code) => {
                            &&& next == RegisterDelegatesFlow {
                                stage: RegistrationStage::AwaitGroupDiscount { group_discount_id, price: t.price },
                                ..self
                            }
                            &&& action == RegistrationAction::FindGroupDiscount(code)
                        },
                        None => self.priced(next, action, t.price, None),
                    }
                }
            },
            (
                RegistrationStage::AwaitGroupDiscount { group_discount_id, price },
                RegistrationEvent::GroupDiscountFound(found),
            ) => match found {
                None => refused(next, action, RegistrationRefusal::InvalidCode),
                Some(g) => if group_discount_id != Some(g.id) {
                    refused(next, action, RegistrationRefusal::CodeOfOtherConference)
                } else if g.active == 0 {
                    refused(next, action, RegistrationRefusal::CodeInactive)
                } else if g.valid_until matches Some(v) && now.spec_after(v) {
                    refused(next, action, RegistrationRefusal::CodeExpired)
                } else if self.request.delegates@.len() < g.min_quantity {
                    refused(next, action, RegistrationRefusal::TooFewDelegates(g.min_quantity))
                } else {
                    self.priced(next, action, price, Some(g.free_quantity))
                },
            },
            (RegistrationStage::AwaitTransaction, RegistrationEvent::TransactionBegun) => if self.delegates().len()
                == 0 {
                refused(next, action, RegistrationRefusal::NoDelegates)
            } else {
                &&& next == RegisterDelegatesFlow {
                    stage: RegistrationStage::AwaitOrganization { index: 0 },
                    ..self
                }
                &&& action == RegistrationAction::FindOrganization(self.delegates()[0].organization_name)
            },
            (RegistrationStage::AwaitOrganization { index }, RegistrationEvent::OrganizationFound(found)) => {
                match found {
                    Some(org) => {
                        &&& next == RegisterDelegatesFlow {
                            stage: RegistrationStage::AwaitClient { index, organization_id: org.id },
                            ..self
                        }
                        &&& action == RegistrationAction::FindClient(self.delegates()[index as int].email)
                    },
                    None => {
                        &&& next == RegisterDelegatesFlow {
                            stage: RegistrationStage::AwaitOrganizationCreated { index },
                            ..self
                        }
                        &&& action matches RegistrationAction::CreateOrganization(e) && new_organization_for(
                            e,
                            self.delegates()[index as int],
                            now,
                        )
                    },
                }
            },
            (RegistrationStage::AwaitOrganizationCreated { index }, RegistrationEvent::OrganizationCreated(org)) => {
                &&& next == RegisterDelegatesFlow {
                    stage: RegistrationStage::AwaitClient { index, organization_id: org.id },
                    ..self
                }
                &&& action == RegistrationAction::FindClient(self.delegates()[index as int].email)
            },
            (RegistrationStage::AwaitClient { index, organization_id }, RegistrationEvent::ClientFound(found)) => {
                match found {
                    Some(c) => self.client_resolved(index, c.id, next, action, now),
                    None => {
                        &&& next == RegisterDelegatesFlow {
                            stage: RegistrationStage::AwaitClientCreated { index },
                            ..self
                        }
                        &&& action matches RegistrationAction::CreateClient(c) && new_client_for(
                            c,
                            self.delegates()[index as int],
                            organization_id,
                            now,
                        )
                    },
                }
            },
            (RegistrationStage::AwaitClientCreated { index }, RegistrationEvent::ClientCreated(c)) => {
                self.client_resolved(index, c.id, next, action, now)
            },
            (RegistrationStage::AwaitRegistrationCreated { client_id }, RegistrationEvent::RegistrationCreated(reg)) => {
                &&& next == RegisterDelegatesFlow {
                    stage: RegistrationStage::AwaitParticipantCreated { index: 0 },
                    registration: Some(reg),
                    ..self
                }
                &&& action matches RegistrationAction::CreateParticipant(p) && new_participant_for(
                    p,
                    reg.id,
                    client_id,
                    self.delegates()[0],
                    now,
                )
            },
            (RegistrationStage::AwaitParticipantCreated { index }, RegistrationEvent::ParticipantCreated) => {
                if index + 1 < self.delegates().len() {
                    &&& next == RegisterDelegatesFlow {
                        stage: RegistrationStage::AwaitOrganization { index: (index + 1) as usize },
                        ..self
                    }
                    &&& action == RegistrationAction::FindOrganization(
                        self.delegates()[index + 1].organization_name,
                    )
                } else {
                    &&& next == RegisterDelegatesFlow { stage: RegistrationStage::AwaitCommit, ..self }
                    &&& action == RegistrationAction::Commit
                }
            },
            (RegistrationStage::AwaitCommit, RegistrationEvent::Committed) => {
                &&& next.stage is Done
                &&& action == RegistrationAction::Finish(Ok(registration_from_entity(self.registration->0)))
            },
            _ => false,
        }
    }
}

/// A new organization for the delegate.
fn organization_for(d: &DelegateInput, now: Timestamp) -> (e: OrganizationEntity)
    ensures
        new_organization_for(e, *d, now),
{
    OrganizationEntity {
        id: 0,
        name: d.organization_name.clone(),
        website: None,
        phone: None,
        billing_email: d.email.clone(),
        created_at: now,
        updated_at: now,
    }
}

/// A new client for the delegate, in the given organization.
fn client_for(d: &DelegateInput, organization_id: u64, now: Timestamp) -> (c: ClientEntity)
    ensures
        new_client_for(c, *d, organization_id, now),
{
    ClientEntity {
        id: 0,
        organization_id: Some(organization_id),
        first_name: d.first_name.clone(),
        last_name: d.last_name.clone(),
        email: d.email.clone(),
        created_at: now,
        updated_at: now,
    }
}

/// The delegate as a participant of the registration.
fn participant_for(d: &DelegateInput, registration_id: u64, client_id: u64, now: Timestamp) -> (p: ParticipantEntity)
    ensures
        new_participant_for(p, registration_id, client_id, *d, now),
{
    ParticipantEntity {
        id: 0,
        registration_id,
        client_id,
        participant_role: String::from_str(ParticipantRole::Delegate.as_str()),
        dietary_requirements: Some(d.dietary_requirements.clone()),
        accessibility_needs: None,
        created_at: now,
        updated_at: now,
    }
}

impl RegisterDelegatesFlow {
    /// Starts a group registration: the conference is loaded first.
    pub fn new(request: DelegateRegistrationRequest) -> (r: (RegisterDelegatesFlow, RegistrationAction))
        ensures
            r.0 == (RegisterDelegatesFlow {
                request,
                quote: None,
                registration: None,
                stage: RegistrationStage::AwaitConference,
            }),
            r.1 == RegistrationAction::LoadConference(request.conference_id),
            r.0.inv(),
    {
        let id = request.conference_id;
        let n = request.delegates.len();
        assert(n <= u64::MAX);
        (
            RegisterDelegatesFlow {
                request,
                quote: None,
                registration: None,
                stage: RegistrationStage::AwaitConference,
            },
            RegistrationAction::LoadConference(id),
        )
    }

    /// Ends the flow with a refusal.
    fn refuse(flow: RegisterDelegatesFlow, why: RegistrationRefusal) -> (r: (RegisterDelegatesFlow, RegistrationAction))
        ensures
            refused(r.0, r.1, why),
            r.0.request == flow.request,
            r.0.quote == flow.quote,
    {
        let mut flow = flow;
        flow.stage = RegistrationStage::Done;
        (flow, RegistrationAction::Finish(Err(why.into_error())))
    }

    /// Prices the group and asks for the transaction.
    fn price(flow: RegisterDelegatesFlow, price: Money, free: Option<u32>) -> (r: Option<
        (RegisterDelegatesFlow, RegistrationAction),
    >)
        requires
            price.wf(),
            flow.quote is None,
            flow.registration is None,
            flow.request.delegates@.len() <= u64::MAX,
            free is Some ==> flow.request.group_discount_code is Some,
        ensures
            r is None <==> spec_quote_amounts(price, flow.count(), free) is None,
            r matches Some(p) ==> flow.priced(p.0, p.1, price, free) && p.0.inv(),
    {
        let mut flow = flow;
        let count = flow.request.delegates.len() as u64;
        let discount = match free {
            Some(f) => match &flow.request.group_discount_code {
                Some(code) => Some((f, code.clone())),
                None => None,
            },
            None => None,
        };
        match quote(price, count, discount) {
            Some(q) => {
                flow.quote = Some(q);
                flow.stage = RegistrationStage::AwaitTransaction;
                Some((flow, RegistrationAction::BeginTransaction))
            },
            None => None,
        }
    }

    /// The client of delegate `index` is known: the first delegate's client
    /// creates the registration, the others become its participants.
    fn resolve_client(flow: RegisterDelegatesFlow, index: usize, client_id: u64, now: Timestamp) -> (r: (
        RegisterDelegatesFlow,
        RegistrationAction,
    ))
        requires
            index < flow.request.delegates@.len(),
            index == 0 ==> flow.quote is Some,
            index != 0 ==> flow.registration is Some,
        ensures
            flow.client_resolved(index, client_id, r.0, r.1, now),
    {
        let mut flow = flow;
        if index == 0 {
            let q = match flow.quote {
                Some(q) => q,
                None => {
                    proof {
                        assert(false);
                    }
                    Quote {
                        price: Money::zero(),
                        places: 0,
                        free_places: 0,
                        discount_code: None,
                        discount_amount: Money::zero(),
                        total_cost: Money::zero(),
                    }
                },
            };
            flow.quote = None;
            let reg = RegistrationEntity {
                id: 0,
                conference_id: flow.request.conference_id,
                status: String::from_str(RegistrationStatus::Submitted.as_str()),
                cost: q.total_cost,
                discount_code: q.discount_code,
                discount_amount: q.discount_amount,
                amount_paid: Money::zero(),
                created_by_id: Some(client_id),
                referrer: Some(flow.request.referrer.clone()),
                notes_internal: None,
                created_at: now,
                updated_at: now,
            };
            flow.stage = RegistrationStage::AwaitRegistrationCreated { client_id };
            (flow, RegistrationAction::CreateRegistration(reg))
        } else {
            let registration_id = match &flow.registration {
                Some(reg) => reg.id,
                None => 0,
            };
            let p = participant_for(&flow.request.delegates[index], registration_id, client_id, now);
            flow.stage = RegistrationStage::AwaitParticipantCreated { index };
            (flow, RegistrationAction::CreateParticipant(p))
        }
    }

    /// Takes the answer to the last action and decides the next one.  `None`
    /// where pricing the group overflows the decimal arithmetic.
    pub fn step(self, event: RegistrationEvent, now: Timestamp, today: Date) -> (r: Option<
        (RegisterDelegatesFlow, RegistrationAction),
    >)
        requires
            self.inv(),
            self.expects(event),
        ensures
            r is None <==> self.pricing_overflows(event, now, today),
            r matches Some(p) ==> {
                &&& self.step_post(event, now, today, p.0, p.1)
                &&& p.0.inv()
                &&& p.0.remaining() < self.remaining()
            },
    {
        let mut flow = self;
        let stage = flow.stage;
        match event {
            RegistrationEvent::Failed(e) => {
                flow.stage = RegistrationStage::Done;
                Some((flow, RegistrationAction::Finish(Err(e))))
            },
            RegistrationEvent::ConferenceLoaded(c) => {
                if !c.is_published() {
                    return Some(Self::refuse(flow, RegistrationRefusal::NotOpen));
                }
                flow.stage = RegistrationStage::AwaitPriceTier { group_discount_id: c.group_discount_id };
                let id = flow.request.price_tier_id;
                Some((flow, RegistrationAction::LoadPriceTier(id)))
            },
            RegistrationEvent::PriceTierLoaded(t) => {
                let group_discount_id = match stage {
                    RegistrationStage::AwaitPriceTier { group_discount_id } => group_discount_id,
                    _ => None,
                };
                if t.conference_id != flow.request.conference_id {
                    return Some(Self::refuse(flow, RegistrationRefusal::TierOfOtherConference));
                }
                if today.days_from_ce > t.deadline.days_from_ce {
                    return Some(Self::refuse(flow, RegistrationRefusal::TierExpired));
                }
                let code = match &flow.request.group_discount_code {
                    Some(code) => Some(code.clone()),
                    None => None,
                };
                match code {
                    Some(code) => {
                        flow.stage = RegistrationStage::AwaitGroupDiscount { group_discount_id, price: t.price };
                        Some((flow, RegistrationAction::FindGroupDiscount(code)))
                    },
                    None => Self::price(flow, t.price, None),
                }
            },
            RegistrationEvent::GroupDiscountFound(found) => {
                let (group_discount_id, price) = match stage {
                    RegistrationStage::AwaitGroupDiscount { group_discount_id, price } => (group_discount_id, price),
                    _ => {
                        return None;
                    },
                };
                let g = match found {
                    Some(g) => g,
                    None => {
                        return Some(Self::refuse(flow, RegistrationRefusal::InvalidCode));
                    },
                };
                if group_discount_id != Some(g.id) {
                    return Some(Self::refuse(flow, RegistrationRefusal::CodeOfOtherConference));
                }
                if !g.is_active() {
                    return Some(Self::refuse(flow, RegistrationRefusal::CodeInactive));
                }
                if let Some(valid_until) = g.valid_until {
                    if now.is_after(&valid_until) {
                        return Some(Self::refuse(flow, RegistrationRefusal::CodeExpired));
                    }
                }
                if (flow.request.delegates.len() as u64) < (g.min_quantity as u64) {
                    return Some(Self::refuse(flow, RegistrationRefusal::TooFewDelegates(g.min_quantity)));
                }
                Self::price(flow, price, Some(g.free_quantity))
            },
            RegistrationEvent::TransactionBegun => {
                if flow.request.delegates.len() == 0 {
                    return Some(Self::refuse(flow, RegistrationRefusal::NoDelegates));
                }
                let name = flow.request.delegates[0].organization_name.clone();
                flow.stage = RegistrationStage::AwaitOrganization { index: 0 };
                Some((flow, RegistrationAction::FindOrganization(name)))
            },
            RegistrationEvent::OrganizationFound(found) => {
                let index = match stage {
                    RegistrationStage::AwaitOrganization { index } => index,
                    _ => {
                        return None;
                    },
                };
                match found {
                    Some(org) => {
                        let email = flow.request.delegates[index].email.clone();
                        flow.stage = RegistrationStage::AwaitClient { index, organization_id: org.id };
                        Some((flow, RegistrationAction::FindClient(email)))
                    },
                    None => {
                        let e = organization_for(&flow.request.delegates[index], now);
                        flow.stage = RegistrationStage::AwaitOrganizationCreated { index };
                        Some((flow, RegistrationAction::CreateOrganization(e)))
                    },
                }
            },
            RegistrationEvent::OrganizationCreated(org) => {
                let index = match stage {
                    RegistrationStage::AwaitOrganizationCreated { index } => index,
                    _ => {
                        return None;
                    },
                };
                let email = flow.request.delegates[index].email.clone();
                flow.stage = RegistrationStage::AwaitClient { index, organization_id: org.id };
                Some((flow, RegistrationAction::FindClient(email)))
            },
            RegistrationEvent::ClientFound(found) => {
                let (index, organization_id) = match stage {
                    RegistrationStage::AwaitClient { index, organization_id } => (index, organization_id),
                    _ => {
                        return None;
                    },
                };
                match found {
                    Some(c) => Some(Self::resolve_client(flow, index, c.id, now)),
                    None => {
                        let c = client_for(&flow.request.delegates[index], organization_id, now);
                        flow.stage = RegistrationStage::AwaitClientCreated { index };
                        Some((flow, RegistrationAction::CreateClient(c)))
                    },
                }
            },
            RegistrationEvent::ClientCreated(c) => {
                let index = match stage {
                    RegistrationStage::AwaitClientCreated { index } => index,
                    _ => {
                        return None;
                    },
                };
                Some(Self::resolve_client(flow, index, c.id, now))
            },
            RegistrationEvent::RegistrationCreated(reg) => {
                let client_id = match stage {
                    RegistrationStage::AwaitRegistrationCreated { client_id } => client_id,
                    _ => {
                        return None;
                    },
                };
                let p = participant_for(&flow.request.delegates[0], reg.id, client_id, now);
                flow.registration = Some(reg);
                flow.stage = RegistrationStage::AwaitParticipantCreated { index: 0 };
                Some((flow, RegistrationAction::CreateParticipant(p)))
            },
            RegistrationEvent::ParticipantCreated => {
                let index = match stage {
                    RegistrationStage::AwaitParticipantCreated { index } => index,
                    _ => {
                        return None;
                    },
                };
                let n = flow.request.delegates.len();
                if index + 1 < n {
                    let name = flow.request.delegates[index + 1].organization_name.clone();
                    flow.stage = RegistrationStage::AwaitOrganization { index: index + 1 };
                    Some((flow, RegistrationAction::FindOrganization(name)))
                } else {
                    flow.stage = RegistrationStage::AwaitCommit;
                    Some((flow, RegistrationAction::Commit))
                }
            },
            RegistrationEvent::Committed => {
                let reg = match flow.registration {
                    Some(reg) => reg,
                    None => {
                        return None;
                    },
                };
                flow.registration = None;
                flow.stage = RegistrationStage::Done;
                Some((flow, RegistrationAction::Finish(Ok(Registration::from(reg)))))
            },
        }
    }
}

/// The stages in which the transaction is open and records may have been
/// written.
pub open spec fn writing(stage: RegistrationStage) -> bool {
    match stage {
        RegistrationStage::AwaitOrganization { .. } => true,
        RegistrationStage::AwaitOrganizationCreated { .. } => true,
        RegistrationStage::AwaitClient { .. } => true,
        RegistrationStage::AwaitClientCreated { .. } => true,
        RegistrationStage::AwaitRegistrationCreated { .. } => true,
        RegistrationStage::AwaitParticipantCreated { .. } => true,
        RegistrationStage::AwaitCommit => true,
        _ => false,
    }
}

/// Every refusal comes before anything is written: once the delegates are
/// being stored, a registration ends only committed, with the registration
/// it stored, or with the failure of a storage call.
pub proof fn no_refusal_once_writing(
    flow: RegisterDelegatesFlow,
    event: RegistrationEvent,
    now: Timestamp,
    today: Date,
    next: RegisterDelegatesFlow,
    action: RegistrationAction,
)
    requires
        flow.inv(),
        flow.expects(event),
        writing(flow.stage),
        flow.step_post(event, now, today, next, action),
    ensures
        action matches RegistrationAction::Finish(result) ==> match event {
            RegistrationEvent::Failed(e) => result == Err::<Registration, AppError>(e),
            RegistrationEvent::Committed => result == Ok::<Registration, AppError>(
                registration_from_entity(flow.registration->0),
            ),
            _ => false,
        },
        !(action is Finish) ==> writing(next.stage),
{
}

/// The transaction is committed only after the last delegate has become a
/// participant of the registration.
pub proof fn commit_follows_last_participant(
    flow: RegisterDelegatesFlow,
    event: RegistrationEvent,
    now: Timestamp,
    today: Date,
    next: RegisterDelegatesFlow,
    action: RegistrationAction,
)
    requires
        flow.inv(),
        flow.expects(event),
        flow.step_post(event, now, today, next, action),
        action == RegistrationAction::Commit,
    ensures
        event == RegistrationEvent::ParticipantCreated,
        flow.stage matches RegistrationStage::AwaitParticipantCreated { index } && index + 1
            == flow.delegates().len(),
        next.stage == RegistrationStage::AwaitCommit,
        next.registration == flow.registration,
{
}

/// The group is priced at the price of the tier that was loaded, with the
/// free places of the discount that was found (none without a code), for
/// as many places as there are delegates.
pub proof fn pricing_uses_tier_and_discount(
    flow: RegisterDelegatesFlow,
    event: RegistrationEvent,
    now: Timestamp,
    today: Date,
    next: RegisterDelegatesFlow,
    action: RegistrationAction,
)
    requires
        flow.inv(),
        flow.expects(event),
        flow.step_post(event, now, today, next, action),
        action == RegistrationAction::BeginTransaction,
    ensures
        next.quote matches Some(q) && q.places == flow.delegates().len() && match event {
            RegistrationEvent::PriceTierLoaded(t) => {
                &&& flow.request.group_discount_code is None
                &&& q.price == t.price
                &&& q.free_places == 0
                &&& q.discount_code is None
            },
            RegistrationEvent::GroupDiscountFound(Some(g)) => {
                &&& flow.stage matches RegistrationStage::AwaitGroupDiscount { price, .. } && q.price == price
                &&& q.free_places == g.free_quantity
                &&& q.discount_code == flow.request.group_discount_code
            },
            _ => false,
        },
{
}

/// A discount code is looked up with the price of the loaded tier kept for
/// pricing.
pub proof fn discount_lookup_keeps_tier_price(
    flow: RegisterDelegatesFlow,
    event: RegistrationEvent,
    now: Timestamp,
    today: Date,
    next: RegisterDelegatesFlow,
    action: RegistrationAction,
)
    requires
        flow.inv(),
        flow.expects(event),
        flow.step_post(event, now, today, next, action),
        action is FindGroupDiscount,
    ensures
        event matches RegistrationEvent::PriceTierLoaded(t) && next.stage matches RegistrationStage::AwaitGroupDiscount {
            price,
            ..
        } && price == t.price,
        action == RegistrationAction::FindGroupDiscount(flow.request.group_discount_code->0),
{
}

/// The registration a group registration creates is submitted, with nothing
/// paid, created by a client of the first delegate, and billed for the
/// places that are not free: where the products fit, its cost is the price
/// of a place times the number of delegates less the free places, and its
/// discount the price of the free places.
pub proof fn registration_bills_paying_places(
    flow: RegisterDelegatesFlow,
    event: RegistrationEvent,
    now: Timestamp,
    today: Date,
    next: RegisterDelegatesFlow,
    action: RegistrationAction,
)
    requires
        flow.inv(),
        flow.expects(event),
        flow.step_post(event, now, today, next, action),
        action is CreateRegistration,
    ensures
        flow.quote matches Some(q) && q.places == flow.delegates().len() && ({
            let r = action->CreateRegistration_0;
            let p = q.price;
            let n = flow.delegates().len() as int;
            let f = q.free_places as int;
            &&& r.conference_id == flow.request.conference_id
            &&& r.status@ == "submitted"@
            &&& r.amount_paid == Money { mantissa: 0, scale: 0 }
            &&& r.discount_code == q.discount_code
            &&& r.referrer == Some(flow.request.referrer)
            &&& flow.stage matches RegistrationStage::AwaitClient { index, .. } ==> index == 0
            &&& flow.stage matches RegistrationStage::AwaitClientCreated { index } ==> index == 0
            &&& quote_fits(p, n, f) ==> r.cost.denotes(p.mantissa * (n - f), p.scale) && r.discount_amount.denotes(
                p.mantissa * f,
                p.scale,
            )
        }),
{
}

/// The organization, client and participant created for a delegate carry
/// that delegate's details: the organization its name and billing email, the
/// client its names, email and organization, the participant its dietary
/// requirements, its client and the registration.
pub proof fn records_are_the_delegates(
    flow: RegisterDelegatesFlow,
    event: RegistrationEvent,
    now: Timestamp,
    today: Date,
    next: RegisterDelegatesFlow,
    action: RegistrationAction,
)
    requires
        flow.inv(),
        flow.expects(event),
        flow.step_post(event, now, today, next, action),
    ensures
        action matches RegistrationAction::CreateOrganization(o) ==> flow.stage matches RegistrationStage::AwaitOrganization {
            index,
        } && {
            let d = flow.delegates()[index as int];
            &&& o.id == 0
            &&& o.name == d.organization_name
            &&& o.billing_email == d.email
            &&& o.website is None && o.phone is None
        },
        action matches RegistrationAction::CreateClient(c) ==> flow.stage matches RegistrationStage::AwaitClient {
            index,
            organization_id,
        } && {
            let d = flow.delegates()[index as int];
            &&& c.id == 0
            &&& c.first_name == d.first_name
            &&& c.last_name == d.last_name
            &&& c.email == d.email
            &&& c.organization_id == Some(organization_id)
        },
        action matches RegistrationAction::CreateParticipant(p) ==> {
            &&& p.id == 0
            &&& p.participant_role@ == "delegate"@
            &&& p.accessibility_needs is None
            &&& match (flow.stage, event) {
                (
                    RegistrationStage::AwaitRegistrationCreated { client_id },
                    RegistrationEvent::RegistrationCreated(reg),
                ) => {
                    &&& p.registration_id == reg.id
                    &&& p.client_id == client_id
                    &&& p.dietary_requirements == Some(flow.delegates()[0].dietary_requirements)
                },
                (RegistrationStage::AwaitClient { index, .. }, RegistrationEvent::ClientFound(Some(c))) => {
                    &&& index > 0
                    &&& p.registration_id == flow.registration->0.id
                    &&& p.client_id == c.id
                    &&& p.dietary_requirements == Some(flow.delegates()[index as int].dietary_requirements)
                },
                (RegistrationStage::AwaitClientCreated { index }, RegistrationEvent::ClientCreated(c)) => {
                    &&& index > 0
                    &&& p.registration_id == flow.registration->0.id
                    &&& p.client_id == c.id
                    &&& p.dietary_requirements == Some(flow.delegates()[index as int].dietary_requirements)
                },
                _ => false,
            }
        },
{
}

} // verus!
