use conference::clock::{Date, Timestamp};
use conference::handlers::users::{list_window, ListQuery};
use conference::models::price_tier::{price_tiers_shown, PriceTier, PriceTierEntity};
use conference::text::u32_to_string;
use conference::services::conference::{new_conference, updated_conference, CreateConferenceRequest, UpdateConferenceRequest};
use conference::services::masterclass::{new_masterclass, updated_masterclass, CreateMasterclassRequest, UpdateMasterclassRequest};
use conference::services::organization::{new_organization, updated_organization, CreateOrganizationRequest, UpdateOrganizationRequest};
use conference::services::speaker::{new_speaker, updated_speaker, CreateSpeakerRequest, UpdateSpeakerRequest};
use conference::services::sponsor::{new_sponsor, updated_sponsor, CreateSponsorRequest, Sponsor, UpdateSponsorRequest};

const T0: Timestamp = Timestamp { secs: 1_700_000_000, nanos: 0 };
const T1: Timestamp = Timestamp { secs: 1_700_000_500, nanos: 7 };

#[test]
fn new_conference_is_unpublished_without_venue() {
    let c = new_conference(
        CreateConferenceRequest {
            code: "RC25".to_string(),
            name: "RustConf".to_string(),
            poster_url: None,
            description: Some("talks".to_string()),
            start_date: Some(T1),
            end_date: None,
        },
        T0,
    );
    assert_eq!(c.id, 0);
    assert_eq!(c.code, "RC25");
    assert_eq!(c.published, 0);
    assert_eq!(c.venue_id, None);
    assert_eq!(c.group_discount_id, None);
    assert_eq!(c.start_date, Some(T1));
    assert_eq!((c.created_at, c.updated_at), (T0, T0));
}

#[test]
fn conference_update_keeps_code_and_publication() {
    let stored = new_conference(
        CreateConferenceRequest {
            code: "RC25".to_string(),
            name: "RustConf".to_string(),
            poster_url: Some("p.png".to_string()),
            description: None,
            start_date: None,
            end_date: None,
        },
        T0,
    );
    let stored = conference::models::conference::ConferenceEntity { id: 4, published: 1, ..stored };
    let u = updated_conference(
        stored,
        UpdateConferenceRequest {
            name: Some("RustConf 2025".to_string()),
            poster_url: None,
            description: None,
            start_date: Some(T1),
            end_date: None,
            venue_id: Some(9),
            group_discount_id: None,
        },
        T1,
    );
    assert_eq!(u.id, 4);
    assert_eq!(u.code, "RC25");
    assert_eq!(u.name, "RustConf 2025");
    assert_eq!(u.poster_url, Some("p.png".to_string()));
    assert_eq!(u.start_date, Some(T1));
    assert_eq!(u.venue_id, Some(9));
    assert_eq!(u.published, 1);
    assert_eq!((u.created_at, u.updated_at), (T0, T1));
}

#[test]
fn organization_create_and_update() {
    let o = new_organization(
        CreateOrganizationRequest {
            name: "Acme".to_string(),
            website: None,
            phone: Some("555".to_string()),
            billing_email: "billing@acme.test".to_string(),
        },
        T0,
    );
    assert_eq!(o.id, 0);
    assert_eq!(o.phone, Some("555".to_string()));
    let u = updated_organization(
        o,
        UpdateOrganizationRequest {
            name: None,
            website: Some("acme.test".to_string()),
            phone: None,
            billing_email: Some("ap@acme.test".to_string()),
        },
        T1,
    );
    assert_eq!(u.name, "Acme");
    assert_eq!(u.website, Some("acme.test".to_string()));
    assert_eq!(u.phone, Some("555".to_string()));
    assert_eq!(u.billing_email, "ap@acme.test");
    assert_eq!((u.created_at, u.updated_at), (T0, T1));
}

#[test]
fn sponsor_create_update_and_show() {
    let s = new_sponsor(
        CreateSponsorRequest {
            tier: "gold".to_string(),
            company_name: Some("Acme".to_string()),
            logo_url: None,
            invoice_contact: None,
            benefits_notes: None,
        },
        31,
        T0,
    );
    assert_eq!(s.participant_id, 31);
    let u = updated_sponsor(
        s,
        UpdateSponsorRequest {
            tier: Some("silver".to_string()),
            company_name: None,
            logo_url: Some("logo.png".to_string()),
            invoice_contact: None,
            benefits_notes: None,
        },
        T1,
    );
    assert_eq!(u.tier, "silver");
    assert_eq!(u.company_name, Some("Acme".to_string()));
    assert_eq!(u.logo_url, Some("logo.png".to_string()));
    let shown = Sponsor::from(u);
    assert_eq!(shown.tier, "silver");
    assert_eq!(shown.participant_id, 31);
    assert_eq!(shown.updated_at, T1);
}

#[test]
fn speaker_create_and_update() {
    let s = new_speaker(
        CreateSpeakerRequest {
            talk_title: "Proofs".to_string(),
            talk_abstract: None,
            duration_minutes: Some(30),
            av_requirements: None,
            headshot: None,
            bio: None,
        },
        12,
        T0,
    );
    assert_eq!((s.id, s.participant_id), (0, 12));
    let u = updated_speaker(
        s,
        UpdateSpeakerRequest {
            talk_title: None,
            talk_abstract: Some("On proofs".to_string()),
            duration_minutes: Some(45),
            av_requirements: None,
            headshot: None,
            bio: None,
        },
        T1,
    );
    assert_eq!(u.talk_title, "Proofs");
    assert_eq!(u.talk_abstract, Some("On proofs".to_string()));
    assert_eq!(u.duration_minutes, Some(45));
    assert_eq!((u.created_at, u.updated_at), (T0, T1));
}

#[test]
fn masterclass_create_and_update() {
    let m = new_masterclass(
        CreateMasterclassRequest {
            conference_id: 3,
            name: "Verus".to_string(),
            description: None,
            start_at: T0,
            end_at: T1,
            venue_id: None,
            capacity: Some(20),
        },
        T0,
    );
    assert_eq!((m.id, m.conference_id, m.capacity), (0, 3, Some(20)));
    let u = updated_masterclass(
        m,
        UpdateMasterclassRequest {
            name: None,
            description: Some("hands on".to_string()),
            start_at: None,
            end_at: None,
            venue_id: Some(2),
            capacity: None,
        },
        T1,
    );
    assert_eq!(u.name, "Verus");
    assert_eq!(u.description, Some("hands on".to_string()));
    assert_eq!(u.venue_id, Some(2));
    assert_eq!(u.capacity, Some(20));
    assert_eq!((u.start_at, u.end_at), (T0, T1));
    assert_eq!(u.updated_at, T1);
}

#[test]
fn clock_checked_tier_at_the_calendar_ends() {
    let tier = |days: i32| PriceTier {
        id: 1,
        conference_id: 2,
        price: conference::money::Money { mantissa: 100, scale: 0 },
        deadline: Date { days_from_ce: days },
        created_at: T0,
        updated_at: T0,
    };
    // the deadline has not passed on any day the clock can give
    assert!(tier(100_000_000).is_expired());
    // nor is any such day on or before this deadline
    assert!(!tier(-100_000_000).is_expired());
}

#[test]
fn numbers_are_written_in_decimal() {
    assert_eq!(u32_to_string(0), "0");
    assert_eq!(u32_to_string(7), "7");
    assert_eq!(u32_to_string(10), "10");
    assert_eq!(u32_to_string(4_294_967_295), "4294967295");
}

#[test]
fn user_list_window() {
    assert_eq!(list_window(ListQuery { page: 1, per_page: 10 }), Some((10, 0)));
    assert_eq!(list_window(ListQuery { page: 3, per_page: 25 }), Some((25, 50)));
    assert_eq!(list_window(ListQuery { page: 0, per_page: 10 }), None);
    assert_eq!(list_window(ListQuery { page: 70_000, per_page: 70_000 }), None);
}

#[test]
fn stored_tiers_are_shown_in_order() {
    let e = |id: u64, days: i32| PriceTierEntity {
        id,
        conference_id: 4,
        price: conference::money::Money { mantissa: 100 * id as i128, scale: 0 },
        deadline: Date { days_from_ce: days },
        created_at: T0,
        updated_at: T1,
    };
    let shown = price_tiers_shown(vec![e(3, 30), e(1, 10), e(2, 20)]);
    let ids: Vec<u64> = shown.iter().map(|t| t.id).collect();
    assert_eq!(ids, vec![3, 1, 2]);
    assert_eq!(shown[1].deadline, Date { days_from_ce: 10 });
    assert_eq!(shown[0].price, conference::money::Money { mantissa: 300, scale: 0 });
}
