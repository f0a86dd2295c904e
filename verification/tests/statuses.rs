use conference::models::activity_booking::BookingStatus;
use conference::models::participant::{Participant, ParticipantEntity, ParticipantRole};
use conference::models::registration::{PaymentStatus, Registration, RegistrationEntity, RegistrationStatus};
use conference::models::registration::RegistrationStatus as S;
use conference::clock::Timestamp;
use conference::money::Money;
use conference::error::{map_db_err, map_find_err, DbError, DomainError};

fn ts(secs: i64) -> Timestamp {
    Timestamp { secs, nanos: 0 }
}

#[test]
fn booking_status_names_round_trip() {
    for s in [BookingStatus::Reserved, BookingStatus::Confirmed, BookingStatus::Cancelled] {
        assert_eq!(BookingStatus::try_from(s.as_str()), Ok(s));
    }
    assert_eq!(BookingStatus::Reserved.as_str(), "reserved");
    assert_eq!(BookingStatus::Confirmed.as_str(), "confirmed");
    assert_eq!(BookingStatus::Cancelled.as_str(), "cancelled");
    assert_eq!(BookingStatus::try_from("Reserved"), Err(()));
    assert_eq!(BookingStatus::try_from(""), Err(()));
}

#[test]
fn participant_role_names_round_trip() {
    for r in [ParticipantRole::Delegate, ParticipantRole::Speaker, ParticipantRole::Sponsor, ParticipantRole::Exhibitor] {
        assert_eq!(ParticipantRole::try_from(r.as_str()), Ok(r));
    }
    assert_eq!(ParticipantRole::Exhibitor.as_str(), "exhibitor");
    assert_eq!(ParticipantRole::try_from("organizer"), Err(()));
}

#[test]
fn registration_status_names_round_trip() {
    let all = [
        RegistrationStatus::Submitted,
        RegistrationStatus::Accepted,
        RegistrationStatus::Waitlisted,
        RegistrationStatus::Rejected,
        RegistrationStatus::Withdrawn,
    ];
    for s in all {
        assert_eq!(RegistrationStatus::try_from(s.as_str()), Ok(s));
    }
    assert_eq!(RegistrationStatus::Waitlisted.as_str(), "waitlisted");
    assert_eq!(RegistrationStatus::try_from("pending"), Err(()));
}

#[test]
fn registration_transitions_follow_the_selection() {
    let all = [RegistrationStatus::Submitted, RegistrationStatus::Accepted, RegistrationStatus::Waitlisted, RegistrationStatus::Rejected, RegistrationStatus::Withdrawn];
    let allowed = [
        (S::Submitted, S::Accepted),
        (S::Submitted, S::Waitlisted),
        (S::Submitted, S::Rejected),
        (S::Submitted, S::Withdrawn),
        (S::Waitlisted, S::Accepted),
        (S::Waitlisted, S::Withdrawn),
        (S::Accepted, S::Withdrawn),
    ];
    for a in all {
        for b in all {
            assert_eq!(a.can_transition_to(&b), allowed.contains(&(a, b)), "{:?} -> {:?}", a, b);
        }
    }
}

#[test]
fn final_statuses_and_withdrawal() {
    let all = [RegistrationStatus::Submitted, RegistrationStatus::Accepted, RegistrationStatus::Waitlisted, RegistrationStatus::Rejected, RegistrationStatus::Withdrawn];
    for b in all {
        assert!(!S::Rejected.can_transition_to(&b));
        assert!(!S::Withdrawn.can_transition_to(&b));
        assert!(!b.can_transition_to(&S::Submitted));
        assert!(!b.can_transition_to(&b));
    }
    for a in [S::Submitted, S::Accepted, S::Waitlisted] {
        assert!(a.can_transition_to(&S::Withdrawn));
    }
}

fn registration(cost: Money, paid: Money) -> Registration {
    Registration {
        id: 1,
        conference_id: 2,
        status: RegistrationStatus::Submitted,
        cost,
        discount_code: None,
        discount_amount: Money { mantissa: 0, scale: 0 },
        amount_paid: paid,
        created_by_id: None,
        notes_internal: None,
        created_at: ts(0),
        updated_at: ts(0),
    }
}

#[test]
fn payment_status_unpaid_partial_paid() {
    let cost = Money { mantissa: 45000, scale: 2 };
    assert_eq!(registration(cost, Money { mantissa: 0, scale: 2 }).payment_status(), PaymentStatus::Unpaid);
    assert_eq!(registration(cost, Money { mantissa: 10000, scale: 2 }).payment_status(), PaymentStatus::Partial);
    // 450.0 equals 450.00 although the scales differ
    assert_eq!(registration(cost, Money { mantissa: 4500, scale: 1 }).payment_status(), PaymentStatus::Paid);
    assert_eq!(registration(cost, Money { mantissa: 500, scale: 0 }).payment_status(), PaymentStatus::Paid);
    // a zero cost with something paid is paid
    assert_eq!(
        registration(Money { mantissa: 0, scale: 0 }, Money { mantissa: 1, scale: 2 }).payment_status(),
        PaymentStatus::Paid
    );
}

#[test]
fn stored_registration_reads_back() {
    let e = RegistrationEntity {
        id: 7,
        conference_id: 3,
        status: "accepted".to_string(),
        cost: Money { mantissa: 100, scale: 0 },
        discount_code: Some("GROUP".to_string()),
        discount_amount: Money { mantissa: 0, scale: 0 },
        amount_paid: Money { mantissa: 0, scale: 0 },
        created_by_id: Some(9),
        referrer: Some("web".to_string()),
        notes_internal: None,
        created_at: ts(1),
        updated_at: ts(2),
    };
    let r = Registration::from(e);
    assert_eq!(r.status, RegistrationStatus::Accepted);
    assert_eq!(r.id, 7);
    assert_eq!(r.created_by_id, Some(9));
    let unknown = RegistrationEntity {
        id: 8,
        conference_id: 3,
        status: "pending".to_string(),
        cost: Money { mantissa: 100, scale: 0 },
        discount_code: None,
        discount_amount: Money { mantissa: 0, scale: 0 },
        amount_paid: Money { mantissa: 0, scale: 0 },
        created_by_id: None,
        referrer: None,
        notes_internal: None,
        created_at: ts(1),
        updated_at: ts(2),
    };
    assert_eq!(Registration::from(unknown).status, RegistrationStatus::Submitted);
}

#[test]
fn stored_participant_role_reads_back() {
    let mk = |role: &str| ParticipantEntity {
        id: 1,
        registration_id: 2,
        client_id: 3,
        participant_role: role.to_string(),
        dietary_requirements: Some("vegan".to_string()),
        accessibility_needs: None,
        created_at: ts(0),
        updated_at: ts(0),
    };
    assert_eq!(Participant::from(mk("speaker")).role, ParticipantRole::Speaker);
    assert_eq!(Participant::from(mk("keynote")).role, ParticipantRole::Delegate);
    assert_eq!(Participant::from(mk("sponsor")).dietary_requirements, Some("vegan".to_string()));
}

#[test]
fn domain_error_messages() {
    assert_eq!(DomainError::NotFound.message(), "enitity not found");
    assert_eq!(DomainError::Conflict.message(), "entity already exists");
    assert_eq!(DomainError::InvalidTransition("x".to_string()).message(), "invalid status transition: x");
    assert_eq!(DomainError::Database("down".to_string()).message(), "database error: down");
}

#[test]
fn database_errors_map_to_domain_errors() {
    let nf = DbError { row_not_found: true, message: "no rows".to_string() };
    let other = DbError { row_not_found: false, message: "timeout".to_string() };
    assert_eq!(map_find_err(nf.clone()), DomainError::NotFound);
    assert_eq!(map_find_err(other.clone()), DomainError::Database("timeout".to_string()));
    assert_eq!(map_db_err(nf), DomainError::Database("no rows".to_string()));
    assert_eq!(map_db_err(other), DomainError::Database("timeout".to_string()));
}
