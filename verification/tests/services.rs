use conference::clock::{Date, Timestamp};
use conference::error::{AppError, DomainError};
use conference::models::conference::{Conference, ConferenceEntity};
use conference::models::group_discount::{GroupDiscount, GroupDiscountEntity};
use conference::models::price_tier::{PriceTier, PriceTierEntity};
use conference::models::registration::{RegistrationEntity, RegistrationStatus};
use conference::money::Money;
use conference::services::activity::{ActivityServiceImpl, ActivityEntity, UpdateActivityRequest, updated_activity};
use conference::services::client::{new_client, updated_client, ClientServiceImpl, CreateClientRequest, UpdateClientRequest};
use conference::services::conference::{
    attach_venues, new_conference, optional_venue, published_conference, regenerated_tiers, registration_form_ready,
    tier_start_date, CreateConferenceRequest,
};
use conference::services::exhibitor::{
    new_exhibitor, updated_exhibitor, CreateExhibitorRequest, Exhibitor, ExhibitorServiceImpl, UpdateExhibitorRequest,
};
use conference::services::group_discount::{toggled_group_discount, updated_group_discount, GroupDiscountServiceImpl, UpdateGroupDiscountRequest};
use conference::services::masterclass::MasterclassServiceImpl;
use conference::services::organization::OrganizationServiceImpl;
use conference::services::participant::{new_participant, updated_participant, CreateParticipantRequest, ParticipantServiceImpl, UpdateParticipantRequest};
use conference::services::price_tier::{new_price_tiers, CreatePriceTierRequest};
use conference::services::registration::{
    record_payment, requested_status, transition, RecordPaymentRequest, RegistrationServiceImpl, TransitionStatusRequest,
};
use conference::services::speaker::SpeakerServiceImpl;
use conference::services::sponsor::SponsorServiceImpl;
use conference::services::venue::{VenueEntity, VenueServiceImpl};
use conference::update::{checked_page_offset, page_offset};
use conference::models::participant::ParticipantEntity;

fn ts(secs: i64) -> Timestamp {
    Timestamp { secs, nanos: 0 }
}

fn m(mantissa: i128, scale: u32) -> Money {
    Money { mantissa, scale }
}

fn stored_registration(status: &str, paid: Money) -> RegistrationEntity {
    RegistrationEntity {
        id: 4,
        conference_id: 1,
        status: status.to_string(),
        cost: m(45000, 2),
        discount_code: None,
        discount_amount: m(0, 0),
        amount_paid: paid,
        created_by_id: None,
        referrer: None,
        notes_internal: Some("vip".to_string()),
        created_at: ts(1),
        updated_at: ts(1),
    }
}

#[test]
fn services_hold_their_stores() {
    assert_eq!(*ActivityServiceImpl::new(1, 2).activity_repo(), 1);
    assert_eq!(*ActivityServiceImpl::new(1, 2).booking_repo(), 2);
    assert_eq!(*ClientServiceImpl::new("c").client_repo(), "c");
    assert_eq!(*ExhibitorServiceImpl::new(3).exhibitor_repo(), 3);
    assert_eq!(*GroupDiscountServiceImpl::new(4).group_discount_repo(), 4);
    let mc = MasterclassServiceImpl::new(5, 6, 7);
    assert_eq!((*mc.masterclass_repo(), *mc.instructor_repo(), *mc.booking_repo()), (5, 6, 7));
    assert_eq!(*OrganizationServiceImpl::new(8).organization_repo(), 8);
    assert_eq!(*ParticipantServiceImpl::new(9).participant_repo(), 9);
    assert_eq!(*RegistrationServiceImpl::new(10).registration_repo(), 10);
    assert_eq!(*SpeakerServiceImpl::new(11).speaker_repo(), 11);
    assert_eq!(*SponsorServiceImpl::new(12).sponsor_repo(), 12);
    assert_eq!(*VenueServiceImpl::new(13).venue_repo(), 13);
}

#[test]
fn page_offsets() {
    assert_eq!(page_offset(1, 10), 0);
    assert_eq!(page_offset(3, 25), 50);
    assert_eq!(checked_page_offset(0, 10), None);
    assert_eq!(checked_page_offset(4_000_000_000, 2), None);
    assert_eq!(checked_page_offset(2, 7), Some(7));
}

#[test]
fn allowed_transition_updates_status() {
    let next = requested_status(&TransitionStatusRequest { status: "accepted".to_string() }).unwrap();
    let e = transition(stored_registration("submitted", m(0, 0)), next, ts(50)).unwrap();
    assert_eq!(e.status, "accepted");
    assert_eq!(e.updated_at, ts(50));
    assert_eq!(e.notes_internal, Some("vip".to_string()));
}

#[test]
fn refused_transition_names_both_statuses() {
    let r = transition(stored_registration("rejected", m(0, 0)), RegistrationStatus::Accepted, ts(50));
    assert_eq!(
        r.unwrap_err(),
        AppError::Domain(DomainError::InvalidTransition("cannot transition from 'rejected' to 'accepted'".to_string()))
    );
    // an unknown stored status counts as submitted
    let r = transition(stored_registration("garbled", m(0, 0)), RegistrationStatus::Waitlisted, ts(50));
    assert_eq!(r.unwrap().status, "waitlisted");
    let bad = requested_status(&TransitionStatusRequest { status: "done".to_string() });
    assert_eq!(bad.unwrap_err(), AppError::Validation("unknown status: done".to_string()));
}

#[test]
fn payments_add_up() {
    let e = record_payment(stored_registration("accepted", m(10000, 2)), RecordPaymentRequest { amount: m(5050, 2) }, ts(9)).unwrap();
    assert_eq!(e.amount_paid, m(15050, 2));
    assert_eq!(e.updated_at, ts(9));
    let first = record_payment(stored_registration("accepted", m(0, 0)), RecordPaymentRequest { amount: m(450, 0) }, ts(9)).unwrap();
    assert_eq!(first.amount_paid, m(450, 0));
    let huge = m(79228162514264337593543950335, 0);
    assert!(record_payment(stored_registration("accepted", huge), RecordPaymentRequest { amount: huge }, ts(9)).is_none());
}

#[test]
fn group_discount_toggle_twice_restores() {
    let gd = GroupDiscountEntity {
        id: 1,
        code: "X".to_string(),
        name: "x".to_string(),
        min_quantity: 3,
        free_quantity: 1,
        active: 0,
        valid_until: None,
        created_at: ts(0),
        updated_at: ts(0),
    };
    let once = toggled_group_discount(gd, ts(1));
    assert_eq!(once.active, -1);
    assert!(GroupDiscount::from(once.clone()).is_active);
    let twice = toggled_group_discount(once, ts(2));
    assert_eq!(twice.active, 0);
    assert!(!GroupDiscount::from(twice.clone()).is_active);
    let from_one = toggled_group_discount(GroupDiscountEntity { active: 1, ..twice }, ts(3));
    assert_eq!(from_one.active, -2);
}

#[test]
fn group_discount_update_reads_free_places_from_minimum() {
    let gd = GroupDiscountEntity {
        id: 1,
        code: "X".to_string(),
        name: "x".to_string(),
        min_quantity: 3,
        free_quantity: 1,
        active: 1,
        valid_until: None,
        created_at: ts(0),
        updated_at: ts(0),
    };
    let dto = UpdateGroupDiscountRequest { name: None, min_quantity: Some(5), free_quantity: Some(2), valid_until: None };
    let u = updated_group_discount(1, gd, dto, ts(4));
    assert_eq!((u.min_quantity, u.free_quantity), (5, 5));
    assert_eq!(u.name, "x");
}

#[test]
fn client_email_conflict() {
    let dto = CreateClientRequest {
        organization_id: None,
        first_name: "A".to_string(),
        last_name: "B".to_string(),
        email: "a@b.c".to_string(),
    };
    assert_eq!(new_client(dto.clone(), true, ts(0)).unwrap_err(), AppError::Domain(DomainError::Conflict));
    let c = new_client(dto, false, ts(5)).unwrap();
    assert_eq!((c.id, c.email.as_str(), c.created_at), (0, "a@b.c", ts(5)));
    let u = updated_client(
        c,
        UpdateClientRequest { organization_id: Some(3), first_name: None, last_name: Some("C".to_string()), email: None },
        ts(6),
    );
    assert_eq!((u.organization_id, u.first_name.as_str(), u.last_name.as_str()), (Some(3), "A", "C"));
    assert_eq!((u.created_at, u.updated_at), (ts(5), ts(6)));
}

#[test]
fn activity_update_keeps_what_is_left_out() {
    let stored = ActivityEntity {
        id: 1,
        conference_id: 2,
        name: "Walk".to_string(),
        description: Some("city walk".to_string()),
        start_at: ts(100),
        end_at: ts(200),
        venue_id: None,
        provider_url: None,
        capacity: Some(20),
        created_at: ts(1),
        updated_at: ts(1),
    };
    let dto = UpdateActivityRequest {
        name: None,
        description: None,
        start_at: Some(ts(150)),
        end_at: None,
        venue_id: Some(4),
        provider_url: None,
        capacity: None,
    };
    let u = updated_activity(stored, dto, ts(9));
    assert_eq!(u.name, "Walk");
    assert_eq!(u.description, Some("city walk".to_string()));
    assert_eq!((u.start_at, u.end_at, u.venue_id, u.capacity), (ts(150), ts(200), Some(4), Some(20)));
    assert_eq!((u.created_at, u.updated_at), (ts(1), ts(9)));
}

#[test]
fn exhibitor_needs_read_back() {
    let dto = CreateExhibitorRequest {
        company_name: "ACME".to_string(),
        power_required: Some(true),
        internet_required: None,
        notes_internal: None,
    };
    let e = new_exhibitor(3, dto, ts(0));
    assert_eq!((e.power_required, e.internet_required), (1, 0));
    let x = Exhibitor::from(e.clone());
    assert!(x.power_required && !x.internet_required);
    let u = updated_exhibitor(
        e,
        UpdateExhibitorRequest { company_name: None, power_required: Some(false), internet_required: None, notes_internal: None },
        ts(1),
    );
    assert_eq!((u.power_required, u.internet_required), (0, 0));
}

#[test]
fn participant_roles_are_checked() {
    let dto = CreateParticipantRequest {
        registration_id: 1,
        client_id: 2,
        role: Some("panelist".to_string()),
        dietary_requirements: None,
        accessibility_needs: None,
    };
    assert_eq!(new_participant(dto, ts(0)).unwrap_err(), AppError::Validation("invalid role: panelist".to_string()));
    let dto = CreateParticipantRequest { registration_id: 1, client_id: 2, role: None, dietary_requirements: None, accessibility_needs: None };
    let p = new_participant(dto, ts(0)).unwrap();
    assert_eq!(p.participant_role, "delegate");
    let stored = ParticipantEntity { participant_role: "speaker".to_string(), ..p };
    let keep = updated_participant(
        ParticipantEntity { ..stored },
        UpdateParticipantRequest { role: None, dietary_requirements: Some("halal".to_string()), accessibility_needs: None },
        ts(3),
    )
    .unwrap();
    assert_eq!(keep.participant_role, "speaker");
    assert_eq!(keep.dietary_requirements, Some("halal".to_string()));
}

fn conference_entity(id: u64, venue_id: Option<u64>) -> ConferenceEntity {
    ConferenceEntity {
        id,
        code: format!("C{id}"),
        name: "c".to_string(),
        poster_url: None,
        description: None,
        start_date: None,
        end_date: None,
        venue_id,
        group_discount_id: None,
        published: 0,
        created_at: ts(0),
        updated_at: ts(0),
    }
}

fn venue(id: u64, name: &str) -> VenueEntity {
    VenueEntity {
        id,
        name: name.to_string(),
        address_line1: None,
        address_line2: None,
        city: None,
        state_region: None,
        postal_code: None,
        country: None,
        notes: None,
        created_at: ts(0),
        updated_at: ts(0),
    }
}

#[test]
fn venues_go_to_the_first_conference_at_them() {
    let cs = vec![conference_entity(1, Some(7)), conference_entity(2, None), conference_entity(3, Some(7)), conference_entity(4, Some(8)), conference_entity(5, Some(9))];
    let vs = vec![venue(7, "old hall"), venue(8, "annex"), venue(7, "new hall")];
    let out = attach_venues(cs, vs);
    let names: Vec<Option<String>> = out.iter().map(|(_, v)| v.as_ref().map(|v| v.name.clone())).collect();
    assert_eq!(
        names,
        vec![Some("new hall".to_string()), None, None, Some("annex".to_string()), None]
    );
    assert_eq!(out.iter().map(|(c, _)| c.id).collect::<Vec<_>>(), vec![1, 2, 3, 4, 5]);
}

#[test]
fn conference_publication_and_lookups() {
    let c = new_conference(
        CreateConferenceRequest {
            code: "RC".to_string(),
            name: "RustConf".to_string(),
            poster_url: None,
            description: None,
            start_date: None,
            end_date: None,
        },
        ts(0),
    );
    assert_eq!((c.published, c.venue_id, c.group_discount_id), (0, None, None));
    assert!(tier_start_date(&c).is_err());
    assert_eq!(
        registration_form_ready(&c).unwrap_err(),
        AppError::Domain(DomainError::InvalidTransition("Registration is not ready for conferences without a start date".to_string()))
    );
    let p = published_conference(c, true, ts(3));
    assert_eq!(p.published, 1);
    let shown = Conference::from((p.clone(), None));
    assert!(shown.is_published);
    assert_eq!(published_conference(p, false, ts(4)).published, 0);
    assert_eq!(optional_venue::<u8>(Err(DomainError::NotFound)), Ok(None));
    assert_eq!(optional_venue::<u8>(Ok(3)), Ok(Some(3)));
    assert_eq!(
        optional_venue::<u8>(Err(DomainError::Conflict)),
        Err(AppError::Domain(DomainError::Conflict))
    );
}

#[test]
fn price_tiers_regenerated_position_by_position() {
    let stored: Vec<PriceTierEntity> = (1..=3)
        .map(|i| PriceTierEntity { id: i, conference_id: 1, price: m(100, 0), deadline: Date { days_from_ce: 1 }, created_at: ts(0), updated_at: ts(0) })
        .collect();
    let generated = vec![
        PriceTier { id: 0, conference_id: 1, price: m(200, 0), deadline: Date { days_from_ce: 10 }, created_at: ts(5), updated_at: ts(5) },
        PriceTier { id: 0, conference_id: 1, price: m(300, 0), deadline: Date { days_from_ce: 20 }, created_at: ts(5), updated_at: ts(5) },
    ];
    let out = regenerated_tiers(stored, generated, ts(9));
    assert_eq!(out.len(), 2);
    assert_eq!((out[0].id, out[0].price, out[0].deadline.days_from_ce, out[0].updated_at), (1, m(200, 0), 10, ts(9)));
    assert_eq!((out[1].id, out[1].price, out[1].created_at), (2, m(300, 0), ts(0)));
}

#[test]
fn new_price_tiers_keep_order() {
    let reqs = vec![
        CreatePriceTierRequest { price: m(100, 0), deadline: Date { days_from_ce: 5 } },
        CreatePriceTierRequest { price: m(150, 0), deadline: Date { days_from_ce: 9 } },
    ];
    let out = new_price_tiers(42, reqs, ts(3));
    assert_eq!(out.len(), 2);
    assert_eq!((out[1].conference_id, out[1].price, out[1].deadline.days_from_ce, out[1].created_at), (42, m(150, 0), 9, ts(3)));
}

#[test]
fn price_tier_expiry_compares_days() {
    let t = PriceTier { id: 1, conference_id: 1, price: m(1, 0), deadline: Date { days_from_ce: 100 }, created_at: ts(0), updated_at: ts(0) };
    assert!(t.is_expired_on(Date { days_from_ce: 100 }));
    assert!(t.is_expired_on(Date { days_from_ce: 99 }));
    assert!(!t.is_expired_on(Date { days_from_ce: 101 }));
    // the clock is far past day 100 of the common era
    assert!(!t.is_expired());
}
