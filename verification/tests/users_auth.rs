use conference::clock::Timestamp;
use conference::error::{AppError, DbError, DomainError};
use conference::handlers::users::{
    check_email_free, created_user_response, default_page, default_per_page, deletion_outcome, lookup_error,
    user_update_plan, CreateUserRequest, ListQuery, UpdateUserRequest,
};
use conference::health::{liveness, readiness};
use conference::password::{hash_password, verify_password};
use conference::services::auth::{authenticate, token_claims, AuthServiceImpl};
use conference::services::user::{new_user, updated_user, CreateUserRequest as NewUser, UpdateUserRequest as UserChanges, User};

fn ts(secs: i64) -> Timestamp {
    Timestamp { secs, nanos: 0 }
}

#[test]
fn create_user_request_validation() {
    let ok = CreateUserRequest { email: "ann@example.org".to_string(), name: "Ann".to_string(), password: "12345678".to_string() };
    assert!(ok.is_valid());
    assert!(!CreateUserRequest { email: "not-an-email".to_string(), ..ok.clone() }.is_valid());
    assert!(!CreateUserRequest { name: String::new(), ..ok.clone() }.is_valid());
    assert!(!CreateUserRequest { name: "x".repeat(101), ..ok.clone() }.is_valid());
    assert!(CreateUserRequest { name: "é".repeat(100), ..ok.clone() }.is_valid());
    assert!(!CreateUserRequest { password: "1234567".to_string(), ..ok }.is_valid());
}

#[test]
fn update_user_request_validation() {
    assert!(UpdateUserRequest { email: None, name: None }.is_valid());
    assert!(!UpdateUserRequest { email: Some("bad".to_string()), name: None }.is_valid());
    assert!(!UpdateUserRequest { email: None, name: Some(String::new()) }.is_valid());
    assert!(UpdateUserRequest { email: Some("a@b.org".to_string()), name: Some("B".to_string()) }.is_valid());
}

#[test]
fn user_update_statements() {
    assert!(user_update_plan(UpdateUserRequest { email: None, name: None }).is_none());
    let p = user_update_plan(UpdateUserRequest { email: None, name: Some("N".to_string()) }).unwrap();
    assert_eq!(p.sql, "UPDATE users SET name = ? WHERE id = ?");
    assert_eq!(p.bindings, vec!["N".to_string()]);
    let p = user_update_plan(UpdateUserRequest { email: Some("e@x.org".to_string()), name: Some("N".to_string()) }).unwrap();
    assert_eq!(p.sql, "UPDATE users SET name = ?, email = ? WHERE id = ?");
    assert_eq!(p.bindings, vec!["N".to_string(), "e@x.org".to_string()]);
    let p = user_update_plan(UpdateUserRequest { email: Some("e@x.org".to_string()), name: None }).unwrap();
    assert_eq!(p.sql, "UPDATE users SET email = ? WHERE id = ?");
}

#[test]
fn user_endpoint_outcomes() {
    assert_eq!((default_page(), default_per_page()), (1, 10));
    let q = ListQuery { page: default_page(), per_page: default_per_page() };
    assert_eq!((q.page, q.per_page), (1, 10));
    assert_eq!(check_email_free(1), Err(AppError::Conflict("Email already registered".to_string())));
    assert_eq!(check_email_free(0), Ok(()));
    assert_eq!(deletion_outcome(0), Err(AppError::NotFound));
    assert_eq!(deletion_outcome(1), Ok(()));
    assert_eq!(lookup_error(DbError { row_not_found: true, message: "x".to_string() }), AppError::NotFound);
    assert_eq!(lookup_error(DbError { row_not_found: false, message: "x".to_string() }), AppError::Internal("x".to_string()));
    let r = created_user_response(
        12,
        CreateUserRequest { email: "a@b.org".to_string(), name: "A".to_string(), password: "12345678".to_string() },
        ts(5),
    );
    assert_eq!((r.id, r.email.as_str(), r.name.as_str(), r.created_at), (12, "a@b.org", "A", ts(5)));
}

#[test]
fn hashed_password_verifies_and_others_do_not() {
    let h = hash_password("correct horse").unwrap();
    assert_ne!(h, "correct horse");
    assert_eq!(verify_password("correct horse", &h), Ok(()));
    assert_eq!(verify_password("wrong horse", &h), Err(AppError::Unauthorized));
    assert_eq!(verify_password("correct horse", "not a hash"), Err(AppError::Unauthorized));
    assert_eq!(verify_password("correct horse", ""), Err(AppError::Unauthorized));
    // the empty password is within the length limit and hashes too
    let e = hash_password("").unwrap();
    assert_eq!(verify_password("", &e), Ok(()));
}

fn user(password: &str) -> User {
    User {
        id: 3,
        first_name: "A".to_string(),
        last_name: "B".to_string(),
        email: "a@b.org".to_string(),
        password_hash: hash_password(password).unwrap(),
        created_at: ts(0),
        updated_at: ts(0),
    }
}

#[test]
fn sign_in_outcomes() {
    let u = user("pw-12345");
    assert_eq!(authenticate(Ok(u.clone()), "pw-12345").unwrap().id, 3);
    assert_eq!(authenticate(Ok(u), "nope").unwrap_err(), AppError::Unauthorized);
    assert_eq!(authenticate(Err(AppError::Domain(DomainError::NotFound)), "x").unwrap_err(), AppError::Unauthorized);
    let down = AppError::Domain(DomainError::Database("down".to_string()));
    assert_eq!(authenticate(Err(down.clone()), "x").unwrap_err(), down);
}

#[test]
fn token_lasts_a_day() {
    let c = token_claims(3, "a@b.org", ts(1_700_000_000));
    assert_eq!((c.sub, c.email.as_str(), c.iat, c.exp), (3, "a@b.org", 1_700_000_000, 1_700_086_400));
    let s = AuthServiceImpl::new("config", 7);
    assert_eq!((*s.config(), *s.user_service()), ("config", 7));
}

#[test]
fn new_and_updated_users() {
    let dto = NewUser { email: "a@b.org".to_string(), first_name: "A".to_string(), last_name: "B".to_string(), password: "secret-1".to_string() };
    assert_eq!(new_user(dto.clone(), true, ts(0)).unwrap_err(), AppError::Domain(DomainError::Conflict));
    let u = new_user(dto, false, ts(4)).unwrap();
    assert_eq!(verify_password("secret-1", &u.password_hash), Ok(()));
    let kept_hash = u.password_hash.clone();
    let same = updated_user(User { id: 9, ..u.clone() }, UserChanges { email: None, first_name: Some("Z".to_string()), last_name: None, password: None }, ts(5)).unwrap();
    assert_eq!((same.id, same.first_name.as_str(), same.password_hash.clone()), (0, "Z", kept_hash));
    let changed = updated_user(u, UserChanges { email: None, first_name: None, last_name: None, password: Some("other-2".to_string()) }, ts(6)).unwrap();
    assert_eq!(verify_password("other-2", &changed.password_hash), Ok(()));
}

#[test]
fn health_probes() {
    assert_eq!(readiness(false, false), Err("Database Non Initialized"));
    assert_eq!(readiness(true, false), Err("Database Unavailable"));
    assert_eq!(readiness(true, true), Ok("Ok"));
    assert_eq!(liveness(), "Ok");
}
