//! Errors of the domain, of storage and of the application.
use vstd::prelude::*;
use vstd::string::*;

verus! {

/// Errors raised by the domain and its repositories.
#[derive(Debug, Clone, PartialEq, Eq)]
pub enum DomainError {
    NotFound,
    Conflict,
    InvalidTransition(String),
    Database(String),
}

impl DomainError {
    /// The text shown for the error.
    pub open spec fn spec_message(self) -> Seq<char> {
        match self {
            DomainError::NotFound => "enitity not found"@,
            DomainError::Conflict => "entity already exists"@,
            DomainError::InvalidTransition(s) => "invalid status transition: "@ + s@,
            DomainError::Database(s) => "database error: "@ + s@,
        }
    }

    /// The text shown for the error.
    pub fn message(&self) -> (r: String)
        ensures
            r@ == self.spec_message(),
    {
        match self {
            DomainError::NotFound => String::from_str("enitity not found"),
            DomainError::Conflict => String::from_str("entity already exists"),
            DomainError::InvalidTransition(s) => {
                let mut r = String::from_str("invalid status transition: ");
                r.append(s.as_str());
                r
            },
            DomainError::Database(s) => {
                let mut r = String::from_str("database error: ");
                r.append(s.as_str());
                r
            },
        }
    }
}

/// What the application answers a failed request with.
#[derive(Debug, Clone, PartialEq, Eq)]
pub enum AppError {
    Domain(DomainError),
    Validation(String),
    Internal(String),
    Unauthorized,
    NotFound,
    Conflict(String),
}

/// A failed database call, as far as the logic reads it: whether no row was
/// found, and the driver's text for the error.
#[derive(Debug, Clone, PartialEq, Eq)]
pub struct DbError {
    pub row_not_found: bool,
    pub message: String,
}

/// A database failure is a database error of the domain.
pub fn map_db_err(e: DbError) -> (r: DomainError)
    ensures
        r == DomainError::Database(e.message),
{
    DomainError::Database(e.message)
}

/// A failed lookup: no row means not found, anything else is a database error.
pub fn map_find_err(e: DbError) -> (r: DomainError)
    ensures
        e.row_not_found ==> r == DomainError::NotFound,
        !e.row_not_found ==> r == DomainError::Database(e.message),
{
    if e.row_not_found {
        DomainError::NotFound
    } else {
        DomainError::Database(e.message)
    }
}

/// Domain errors reach the caller unchanged, inside the application error.
pub fn from_domain(e: DomainError) -> (r: AppError)
    ensures
        r == AppError::Domain(e),
{
    AppError::Domain(e)
}

} // verus!
