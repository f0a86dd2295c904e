//! The user endpoints: what they check and compute around the database.
use vstd::prelude::*;
use vstd::string::*;
use crate::clock::Timestamp;
use crate::error::{AppError, DbError};
use crate::update::{checked_page_offset, spec_page_offset};
use validator::ValidateEmail;

verus! {

/// A user as answered by the endpoints.
#[derive(Debug, Clone)]
pub struct UserResponse {
    pub id: u64,
    pub email: String,
    pub name: String,
    pub created_at: Timestamp,
    pub updated_at: Timestamp,
}

/// A user to create: a valid email, a name of 1 to 100 characters and a
/// password of at least 8 characters.
#[derive(Debug, Clone)]
pub struct CreateUserRequest {
    pub email: String,
    pub name: String,
    pub password: String,
}

/// Changes to a user: an email, if given, must be valid, and a name, if
/// given, 1 to 100 characters long.
#[derive(Debug, Clone)]
pub struct UpdateUserRequest {
    pub email: Option<String>,
    pub name: Option<String>,
}

/// Which page of users to list.
#[derive(Debug, Clone, Copy)]
pub struct ListQuery {
    pub page: u32,
    pub per_page: u32,
}

/// The page listed when none is asked for.
pub fn default_page() -> (r: u32)
    ensures
        r == 1,
{
    1
}

/// The page size used when none is asked for.
pub fn default_per_page() -> (r: u32)
    ensures
        r == 10,
{
    10
}

/// The rows a list query asks for: `per_page` users starting at the offset
/// of page `page` (counted from 1), as `(limit, offset)`.  `None` for page 0
/// or an offset past `u32::MAX`, where computing the offset overflows.
pub fn list_window(query: ListQuery) -> (r: Option<(u32, u32)>)
    ensures
        r is Some <==> (query.page >= 1 && (query.page - 1) * query.per_page <= u32::MAX),
        r matches Some(w) ==> w.0 == query.per_page && w.1 == spec_page_offset(query.page, query.per_page),
{
    match checked_page_offset(query.page, query.per_page) {
        Some(offset) => Some((query.per_page, offset)),
        None => None,
    }
}

/// Whether the `validator` crate's email check accepts the text.
pub uninterp spec fn validator_accepts_email(s: Seq<char>) -> bool;

/// `ValidateEmail::validate_email` of the `validator` crate on a string.
/// Claimed: the answer is the name for that check on the text.
#[verifier::external_body]
fn email_is_valid(s: &String) -> (r: bool)
    ensures
        r == validator_accepts_email(s@),
{
    s.validate_email()
}

/// The number of characters of a string.
fn char_count(s: &String) -> (r: usize)
    ensures
        r == s@.len(),
{
    s.as_str().unicode_len()
}

/// A name is 1 to 100 characters long.
pub open spec fn valid_name(s: Seq<char>) -> bool {
    1 <= s.len() <= 100
}

impl CreateUserRequest {
    /// The request passes the checks on its fields.
    pub open spec fn spec_is_valid(self) -> bool {
        &&& validator_accepts_email(self.email@)
        &&& valid_name(self.name@)
        &&& self.password@.len() >= 8
    }

    /// The request passes the checks on its fields.
    pub fn is_valid(&self) -> (r: bool)
        ensures
            r == self.spec_is_valid(),
    {
        let n = char_count(&self.name);
        email_is_valid(&self.email) && 1 <= n && n <= 100 && char_count(&self.password) >= 8
    }
}

impl UpdateUserRequest {
    /// The request passes the checks on the fields it gives.
    pub open spec fn spec_is_valid(self) -> bool {
        &&& (self.email matches Some(e) ==> validator_accepts_email(e@))
        &&& (self.name matches Some(n) ==> valid_name(n@))
    }

    /// The request passes the checks on the fields it gives.
    pub fn is_valid(&self) -> (r: bool)
        ensures
            r == self.spec_is_valid(),
    {
        let email_ok = match &self.email {
            Some(e) => email_is_valid(e),
            None => true,
        };
        let name_ok = match &self.name {
            Some(n) => {
                let c = char_count(n);
                1 <= c && c <= 100
            },
            None => true,
        };
        email_ok && name_ok
    }
}

/// A creation request is accepted exactly when its email passes the email
/// check, its name has 1 to 100 characters and its password at least 8.
pub proof fn create_request_checks(req: CreateUserRequest)
    ensures
        req.spec_is_valid() <==> (validator_accepts_email(req.email@) && 1 <= req.name@.len() <= 100
            && req.password@.len() >= 8),
{
}

/// An update request is accepted exactly when the email it gives, if any,
/// passes the email check and the name it gives, if any, has 1 to 100
/// characters; one that gives neither is accepted.
pub proof fn update_request_checks(req: UpdateUserRequest)
    ensures
        req.spec_is_valid() <==> ((req.email matches Some(e) ==> validator_accepts_email(e@)) && (
        req.name matches Some(n) ==> 1 <= n@.len() <= 100)),
        req.name matches Some(n) && (n@.len() == 0 || n@.len() > 100) ==> !req.spec_is_valid(),
        req.email is None && req.name is None ==> req.spec_is_valid(),
{
}

/// The statement and values that apply an update: the columns given, name
/// first, then email.  `None` when nothing is given, in which case the user
/// is only read back.
pub struct UserUpdatePlan {
    pub sql: String,
    pub bindings: Vec<String>,
}

/// The statement that sets the given columns of one user.
pub open spec fn update_sql(set_clauses: Seq<Seq<char>>) -> Seq<char> {
    if set_clauses.len() == 1 {
        "UPDATE users SET "@ + set_clauses[0] + " WHERE id = ?"@
    } else {
        "UPDATE users SET "@ + set_clauses[0] + ", "@ + set_clauses[1] + " WHERE id = ?"@
    }
}

/// The update to run for a request: `None` when it gives nothing; otherwise
/// the statement setting the given columns (name before email) and their
/// values in the same order.
pub fn user_update_plan(dto: UpdateUserRequest) -> (r: Option<UserUpdatePlan>)
    ensures
        match (dto.name, dto.email) {
            (None, None) => r is None,
            (Some(n), None) => r matches Some(p) && p.sql@ == update_sql(seq!["name = ?"@]) && p.bindings@ == seq![n],
            (None, Some(e)) => r matches Some(p) && p.sql@ == update_sql(seq!["email = ?"@]) && p.bindings@ == seq![e],
            (Some(n), Some(e)) => r matches Some(p) && p.sql@ == update_sql(seq!["name = ?"@, "email = ?"@])
                && p.bindings@ == seq![n, e],
        },
{
    let mut sql = String::from_str("UPDATE users SET ");
    let mut bindings: Vec<String> = Vec::new();
    let has_name = dto.name.is_some();
    match dto.name {
        Some(n) => {
            sql.append("name = ?");
            bindings.push(n);
        },
        None => {},
    }
    match dto.email {
        Some(e) => {
            if has_name {
                sql.append(", ");
            }
            sql.append("email = ?");
            bindings.push(e);
        },
        None => {},
    }
    if bindings.len() == 0 {
        return None;
    }
    sql.append(" WHERE id = ?");
    proof {
        assert(seq!["name = ?"@][0] == "name = ?"@);
        assert(seq!["email = ?"@][0] == "email = ?"@);
        assert(seq!["name = ?"@, "email = ?"@][1] == "email = ?"@);
    }
    Some(UserUpdatePlan { sql, bindings })
}

/// Creating a user whose email is taken is refused with "Email already
/// registered" (the database answers the existence check with 1).
pub fn check_email_free(exists: i64) -> (r: Result<(), AppError>)
    ensures
        exists == 1 ==> (r matches Err(AppError::Conflict(m)) && m@ == "Email already registered"@),
        exists != 1 ==> r is Ok,
{
    if exists == 1 {
        Err(AppError::Conflict(String::from_str("Email already registered")))
    } else {
        Ok(())
    }
}

/// A failed lookup of one user: no row is not found, anything else an
/// internal error carrying the driver's text.
pub fn lookup_error(e: DbError) -> (r: AppError)
    ensures
        e.row_not_found ==> r == AppError::NotFound,
        !e.row_not_found ==> r == AppError::Internal(e.message),
{
    if e.row_not_found {
        AppError::NotFound
    } else {
        AppError::Internal(e.message)
    }
}

/// Deleting removed no row: the user was not found.
pub fn deletion_outcome(rows_affected: u64) -> (r: Result<(), AppError>)
    ensures
        rows_affected == 0 ==> r == Err::<(), AppError>(AppError::NotFound),
        rows_affected != 0 ==> r is Ok,
{
    if rows_affected == 0 {
        Err(AppError::NotFound)
    } else {
        Ok(())
    }
}

/// The user just created, as answered: the id the database gave, the
/// request's email and name, created and updated now.
pub fn created_user_response(id: u64, dto: CreateUserRequest, now: Timestamp) -> (r: UserResponse)
    ensures
        r == (UserResponse { id, email: dto.email, name: dto.name, created_at: now, updated_at: now }),
{
    UserResponse { id, email: dto.email, name: dto.name, created_at: now, updated_at: now }
}

} // verus!
