use conference::clock::{Date, Timestamp};
use conference::delegate_registration::{
    DelegateInput, DelegateRegistrationRequest, RegisterDelegatesFlow, RegistrationAction, RegistrationEvent,
    RegistrationRefusal,
};
use conference::direct_registration::{DirectAction, DirectEvent, DirectRegistrationFlow, RegisterDelegateRequest};
use conference::error::{AppError, DomainError};
use conference::models::client::ClientEntity;
use conference::models::conference::ConferenceEntity;
use conference::models::group_discount::GroupDiscountEntity;
use conference::models::organization::OrganizationEntity;
use conference::models::price_tier::{PriceTier, PriceTierEntity};
use conference::models::registration::{RegistrationEntity, RegistrationStatus};
use conference::money::Money;

const NOW: Timestamp = Timestamp { secs: 1_700_000_000, nanos: 0 };
const TODAY: Date = Date { days_from_ce: 738_000 };

fn delegate(n: &str) -> DelegateInput {
    DelegateInput {
        first_name: format!("{n}-first"),
        last_name: format!("{n}-last"),
        email: format!("{n}@example.org"),
        organization_name: format!("{n} Org"),
        dietary_requirements: "none".to_string(),
    }
}

fn request(code: Option<&str>, delegates: Vec<DelegateInput>) -> DelegateRegistrationRequest {
    DelegateRegistrationRequest {
        conference_id: 10,
        price_tier_id: 20,
        group_discount_code: code.map(|c| c.to_string()),
        delegates,
        referrer: "newsletter".to_string(),
    }
}

fn conference(published: i8, group_discount_id: Option<u64>) -> ConferenceEntity {
    ConferenceEntity {
        id: 10,
        code: "RC25".to_string(),
        name: "RustConf".to_string(),
        poster_url: None,
        description: None,
        start_date: Some(Timestamp { secs: 1_800_000_000, nanos: 0 }),
        end_date: None,
        venue_id: None,
        group_discount_id,
        published,
        created_at: NOW,
        updated_at: NOW,
    }
}

fn tier(conference_id: u64, deadline: i32) -> PriceTierEntity {
    PriceTierEntity {
        id: 20,
        conference_id,
        price: Money { mantissa: 45000, scale: 2 },
        deadline: Date { days_from_ce: deadline },
        created_at: NOW,
        updated_at: NOW,
    }
}

fn discount(id: u64, active: i8, min: u32, free: u32, valid_until: Option<Timestamp>) -> GroupDiscountEntity {
    GroupDiscountEntity {
        id,
        code: "3FOR2".to_string(),
        name: "3 for 2".to_string(),
        min_quantity: min,
        free_quantity: free,
        active,
        valid_until,
        created_at: NOW,
        updated_at: NOW,
    }
}

fn step(flow: RegisterDelegatesFlow, e: RegistrationEvent) -> (RegisterDelegatesFlow, RegistrationAction) {
    flow.step(e, NOW, TODAY).expect("no overflow")
}

fn refusal_of(a: RegistrationAction) -> String {
    match a {
        RegistrationAction::Finish(Err(AppError::Validation(m))) => m,
        other => panic!("not a refusal: {:?}", other),
    }
}

/// Runs the flow up to the group discount lookup (or the transaction).
fn priced(code: Option<&str>, delegates: Vec<DelegateInput>) -> (RegisterDelegatesFlow, RegistrationAction) {
    let (flow, a) = RegisterDelegatesFlow::new(request(code, delegates));
    assert!(matches!(a, RegistrationAction::LoadConference(10)));
    let (flow, a) = step(flow, RegistrationEvent::ConferenceLoaded(conference(1, Some(5))));
    assert!(matches!(a, RegistrationAction::LoadPriceTier(20)));
    step(flow, RegistrationEvent::PriceTierLoaded(tier(10, TODAY.days_from_ce + 30)))
}

#[test]
fn two_delegates_register_with_a_group_discount() {
    let (flow, a) = priced(Some("3FOR2"), vec![delegate("ann"), delegate("bob")]);
    match a {
        RegistrationAction::FindGroupDiscount(c) => assert_eq!(c, "3FOR2"),
        other => panic!("{:?}", other),
    }
    let (flow, a) = step(flow, RegistrationEvent::GroupDiscountFound(Some(discount(5, 1, 2, 1, None))));
    assert!(matches!(a, RegistrationAction::BeginTransaction));
    let (flow, a) = step(flow, RegistrationEvent::TransactionBegun);
    match a {
        RegistrationAction::FindOrganization(n) => assert_eq!(n, "ann Org"),
        other => panic!("{:?}", other),
    }
    // ann's organization exists already
    let org = OrganizationEntity {
        id: 77,
        name: "ann Org".to_string(),
        website: None,
        phone: None,
        billing_email: "billing@ann.org".to_string(),
        created_at: NOW,
        updated_at: NOW,
    };
    let (flow, a) = step(flow, RegistrationEvent::OrganizationFound(Some(org)));
    match a {
        RegistrationAction::FindClient(e) => assert_eq!(e, "ann@example.org"),
        other => panic!("{:?}", other),
    }
    let (flow, a) = step(flow, RegistrationEvent::ClientFound(None));
    let client = match a {
        RegistrationAction::CreateClient(c) => {
            assert_eq!(c.organization_id, Some(77));
            assert_eq!(c.email, "ann@example.org");
            assert_eq!(c.first_name, "ann-first");
            ClientEntity { id: 501, ..c }
        },
        other => panic!("{:?}", other),
    };
    let (flow, a) = step(flow, RegistrationEvent::ClientCreated(client));
    let reg = match a {
        RegistrationAction::CreateRegistration(r) => {
            assert_eq!(r.status, "submitted");
            assert_eq!(r.cost, Money { mantissa: 45000, scale: 2 }); // 2 x 450.00 - 450.00
            assert_eq!(r.discount_amount, Money { mantissa: 45000, scale: 2 });
            assert_eq!(r.discount_code, Some("3FOR2".to_string()));
            assert_eq!(r.amount_paid, Money { mantissa: 0, scale: 0 });
            assert_eq!(r.created_by_id, Some(501));
            assert_eq!(r.referrer, Some("newsletter".to_string()));
            RegistrationEntity { id: 900, ..r }
        },
        other => panic!("{:?}", other),
    };
    let (flow, a) = step(flow, RegistrationEvent::RegistrationCreated(reg));
    match a {
        RegistrationAction::CreateParticipant(p) => {
            assert_eq!(p.registration_id, 900);
            assert_eq!(p.client_id, 501);
            assert_eq!(p.participant_role, "delegate");
            assert_eq!(p.dietary_requirements, Some("none".to_string()));
        },
        other => panic!("{:?}", other),
    }
    let (flow, a) = step(flow, RegistrationEvent::ParticipantCreated);
    match a {
        RegistrationAction::FindOrganization(n) => assert_eq!(n, "bob Org"),
        other => panic!("{:?}", other),
    }
    let (flow, a) = step(flow, RegistrationEvent::OrganizationFound(None));
    let org = match a {
        RegistrationAction::CreateOrganization(o) => {
            assert_eq!(o.name, "bob Org");
            assert_eq!(o.billing_email, "bob@example.org");
            OrganizationEntity { id: 78, ..o }
        },
        other => panic!("{:?}", other),
    };
    let (flow, _) = step(flow, RegistrationEvent::OrganizationCreated(org));
    let existing = ClientEntity {
        id: 502,
        organization_id: Some(1),
        first_name: "Bob".to_string(),
        last_name: "B".to_string(),
        email: "bob@example.org".to_string(),
        created_at: NOW,
        updated_at: NOW,
    };
    let (flow, a) = step(flow, RegistrationEvent::ClientFound(Some(existing)));
    match a {
        RegistrationAction::CreateParticipant(p) => {
            assert_eq!(p.registration_id, 900);
            assert_eq!(p.client_id, 502);
        },
        other => panic!("{:?}", other),
    }
    let (flow, a) = step(flow, RegistrationEvent::ParticipantCreated);
    assert!(matches!(a, RegistrationAction::Commit));
    let (_, a) = step(flow, RegistrationEvent::Committed);
    match a {
        RegistrationAction::Finish(Ok(r)) => {
            assert_eq!(r.id, 900);
            assert_eq!(r.status, RegistrationStatus::Submitted);
        },
        other => panic!("{:?}", other),
    }
}

#[test]
fn unpublished_conference_is_refused() {
    let (flow, _) = RegisterDelegatesFlow::new(request(None, vec![delegate("a")]));
    let (_, a) = step(flow, RegistrationEvent::ConferenceLoaded(conference(0, None)));
    assert_eq!(refusal_of(a), "Registrations are not open for this conference");
}

#[test]
fn price_tier_checks() {
    let (flow, _) = RegisterDelegatesFlow::new(request(None, vec![delegate("a")]));
    let (flow, _) = step(flow, RegistrationEvent::ConferenceLoaded(conference(1, None)));
    let (_, a) = step(flow, RegistrationEvent::PriceTierLoaded(tier(11, TODAY.days_from_ce - 1)));
    assert_eq!(refusal_of(a), "The selected price tier does not belong to this conference.");

    // a tier whose deadline has passed is refused as expired
    let (flow, _) = RegisterDelegatesFlow::new(request(None, vec![delegate("a")]));
    let (flow, _) = step(flow, RegistrationEvent::ConferenceLoaded(conference(1, None)));
    let (_, a) = step(flow, RegistrationEvent::PriceTierLoaded(tier(10, TODAY.days_from_ce - 1)));
    assert_eq!(refusal_of(a), "The selected price tier has expired. Please select a valid one.");

    // a tier whose deadline is today can still be chosen
    let (flow, _) = RegisterDelegatesFlow::new(request(None, vec![delegate("a")]));
    let (flow, _) = step(flow, RegistrationEvent::ConferenceLoaded(conference(1, None)));
    let (_, a) = step(flow, RegistrationEvent::PriceTierLoaded(tier(10, TODAY.days_from_ce)));
    assert!(matches!(a, RegistrationAction::BeginTransaction));
}

#[test]
fn group_discount_checks() {
    let cases: Vec<(Option<GroupDiscountEntity>, &str)> = vec![
        (None, "Invalid group discount code."),
        (Some(discount(6, 1, 1, 1, None)), "This discount code is not valid for this conference."),
        (Some(discount(5, 0, 1, 1, None)), "This discount code is no longer active."),
        (
            Some(discount(5, 1, 1, 1, Some(Timestamp { secs: NOW.secs - 1, nanos: 0 }))),
            "This discount code has expired",
        ),
        (Some(discount(5, 1, 3, 1, None)), "A minimum of 3 delegates is required to use this discount."),
    ];
    for (found, message) in cases {
        let (flow, _) = priced(Some("3FOR2"), vec![delegate("a"), delegate("b")]);
        let (_, a) = step(flow, RegistrationEvent::GroupDiscountFound(found));
        assert_eq!(refusal_of(a), message);
    }
    // valid until exactly now is still valid
    let (flow, _) = priced(Some("3FOR2"), vec![delegate("a"), delegate("b")]);
    let (_, a) = step(flow, RegistrationEvent::GroupDiscountFound(Some(discount(5, 1, 2, 1, Some(NOW)))));
    assert!(matches!(a, RegistrationAction::BeginTransaction));
}

#[test]
fn empty_group_is_refused_after_pricing() {
    let (flow, a) = priced(None, vec![]);
    assert!(matches!(a, RegistrationAction::BeginTransaction));
    let (_, a) = step(flow, RegistrationEvent::TransactionBegun);
    assert_eq!(refusal_of(a), "Delegates is an empty list");
    assert_eq!(RegistrationRefusal::NoDelegates.message(), "Delegates is an empty list");
}

#[test]
fn a_failure_ends_the_flow_with_it() {
    let (flow, _) = priced(None, vec![delegate("a")]);
    let e = AppError::Domain(DomainError::Database("lost".to_string()));
    let (_, a) = step(flow, RegistrationEvent::Failed(e.clone()));
    match a {
        RegistrationAction::Finish(Err(got)) => assert_eq!(got, e),
        other => panic!("{:?}", other),
    }
}

#[test]
fn overflowing_price_is_reported() {
    let (flow, _) = RegisterDelegatesFlow::new(request(None, vec![delegate("a"), delegate("b")]));
    let (flow, _) = step(flow, RegistrationEvent::ConferenceLoaded(conference(1, None)));
    let mut t = tier(10, TODAY.days_from_ce + 30);
    t.price = Money { mantissa: 79228162514264337593543950335, scale: 0 };
    assert!(flow.step(RegistrationEvent::PriceTierLoaded(t), NOW, TODAY).is_none());
}

#[test]
fn direct_registration_creates_everything_for_each_delegate() {
    let price_tier = PriceTier::from(tier(10, TODAY.days_from_ce));
    let req = RegisterDelegateRequest {
        conference_id: 10,
        price_tier,
        discount_code: Some("EARLY".to_string()),
        delegates: vec![delegate("ann"), delegate("bob")],
    };
    let (flow, a) = DirectRegistrationFlow::new(req);
    assert!(matches!(a, DirectAction::BeginTransaction));
    let (flow, a) = flow.step(DirectEvent::TransactionBegun, NOW);
    let reg = match a {
        DirectAction::CreateRegistration(r) => {
            assert_eq!(r.id, 0);
            assert_eq!(r.conference_id, 10);
            assert_eq!(r.status, "submitted");
            assert_eq!(r.cost, Money { mantissa: 45000, scale: 2 });
            assert_eq!(r.discount_code, Some("EARLY".to_string()));
            assert_eq!(r.discount_amount, Money { mantissa: 0, scale: 0 });
            assert_eq!(r.amount_paid, Money { mantissa: 0, scale: 0 });
            assert_eq!(r.created_by_id, None);
            RegistrationEntity { id: 900, ..r }
        },
        other => panic!("{:?}", other),
    };
    let (mut flow, mut a) = flow.step(DirectEvent::RegistrationCreated(reg), NOW);
    for (i, name) in ["ann", "bob"].iter().enumerate() {
        let org = match a {
            DirectAction::CreateOrganization(o) => {
                assert_eq!(o.name, format!("{name} Org"));
                assert_eq!(o.billing_email, format!("{name}@example.org"));
                OrganizationEntity { id: 100 + i as u64, ..o }
            },
            other => panic!("{:?}", other),
        };
        let (f, next) = flow.step(DirectEvent::OrganizationCreated(org), NOW);
        let client = match next {
            DirectAction::CreateClient(c) => {
                assert_eq!(c.organization_id, Some(100 + i as u64));
                assert_eq!(c.email, format!("{name}@example.org"));
                ClientEntity { id: 200 + i as u64, ..c }
            },
            other => panic!("{:?}", other),
        };
        let (f, next) = f.step(DirectEvent::ClientCreated(client), NOW);
        match &next {
            DirectAction::CreateParticipant(p) => {
                assert_eq!(p.registration_id, 900);
                assert_eq!(p.client_id, 200 + i as u64);
                assert_eq!(p.participant_role, "delegate");
                assert_eq!(p.dietary_requirements, Some("none".to_string()));
            },
            other => panic!("{:?}", other),
        }
        let (f, next) = f.step(DirectEvent::ParticipantCreated, NOW);
        flow = f;
        a = next;
    }
    assert!(matches!(a, DirectAction::Commit));
    let (_, a) = flow.step(DirectEvent::Committed, NOW);
    match a {
        DirectAction::Finish(Ok(r)) => {
            assert_eq!(r.id, 900);
            assert_eq!(r.status, RegistrationStatus::Submitted);
        },
        other => panic!("{:?}", other),
    }
}
