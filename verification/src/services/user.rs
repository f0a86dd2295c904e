//! Users of the back office: creating and editing them.
use vstd::prelude::*;
use crate::clock::Timestamp;
use crate::error::{AppError, DomainError};
use crate::password::{argon2_accepts, hash_password, MAX_PASSWORD_CHARS};
use crate::update::{given_or_keep, unwrap_or_stored};

verus! {

/// A back-office user.
#[derive(Debug, Clone)]
pub struct User {
    pub id: u64,
    pub first_name: String,
    pub last_name: String,
    pub email: String,
    pub password_hash: String,
    pub created_at: Timestamp,
    pub updated_at: Timestamp,
}

/// A user to create, with the password in clear.
#[derive(Debug, Clone)]
pub struct CreateUserRequest {
    pub email: String,
    pub first_name: String,
    pub last_name: String,
    pub password: String,
}

/// Changes to a user; fields left out are kept, a new password is hashed.
#[derive(Debug, Clone)]
pub struct UpdateUserRequest {
    pub email: Option<String>,
    pub first_name: Option<String>,
    pub last_name: Option<String>,
    pub password: Option<String>,
}

/// The user to store for a creation request: refused as a conflict where
/// the email is taken; the password is stored hashed, and a failure of the
/// hasher (only for a password past the length limit) is an internal error.
pub fn new_user(dto: CreateUserRequest, email_exists: bool, now: Timestamp) -> (r: Result<User, AppError>)
    ensures
        email_exists ==> r == Err::<User, AppError>(AppError::Domain(DomainError::Conflict)),
        !email_exists && dto.password@.len() <= MAX_PASSWORD_CHARS ==> r is Ok,
        !email_exists ==> match r {
            Ok(u) => {
                &&& u.id == 0
                &&& u.email == dto.email
                &&& u.first_name == dto.first_name
                &&& u.last_name == dto.last_name
                &&& argon2_accepts(dto.password@, u.password_hash@)
                &&& u.created_at == now
                &&& u.updated_at == now
            },
            Err(e) => e is Internal,
        },
{
    if email_exists {
        return Err(AppError::Domain(DomainError::Conflict));
    }
    let password_hash = match hash_password(dto.password.as_str()) {
        Ok(h) => h,
        Err(e) => {
            return Err(e);
        },
    };
    Ok(
        User {
            id: 0,
            email: dto.email,
            first_name: dto.first_name,
            last_name: dto.last_name,
            password_hash,
            created_at: now,
            updated_at: now,
        },
    )
}

/// The stored user with the requested changes: fields left out are kept, a
/// new password replaces the stored hash with its own hash (hashing fails
/// only for a password past the length limit).  The id of the
/// result is 0, as the update is written.
pub fn updated_user(stored: User, dto: UpdateUserRequest, now: Timestamp) -> (r: Result<User, AppError>)
    ensures
        match r {
            Ok(u) => {
                &&& u.id == 0
                &&& u.email == given_or_keep(dto.email, stored.email)
                &&& u.first_name == given_or_keep(dto.first_name, stored.first_name)
                &&& u.last_name == given_or_keep(dto.last_name, stored.last_name)
                &&& match dto.password {
                    Some(p) => argon2_accepts(p@, u.password_hash@),
                    None => u.password_hash == stored.password_hash,
                }
                &&& u.created_at == stored.created_at
                &&& u.updated_at == now
            },
            Err(e) => dto.password is Some && e is Internal,
        },
        dto.password is None ==> r is Ok,
        dto.password matches Some(p) && p@.len() <= MAX_PASSWORD_CHARS ==> r is Ok,
{
    let password_hash = match &dto.password {
        Some(p) => match hash_password(p.as_str()) {
            Ok(h) => h,
            Err(e) => {
                return Err(e);
            },
        },
        None => stored.password_hash,
    };
    Ok(
        User {
            id: 0,
            email: unwrap_or_stored(dto.email, stored.email),
            first_name: unwrap_or_stored(dto.first_name, stored.first_name),
            last_name: unwrap_or_stored(dto.last_name, stored.last_name),
            password_hash,
            created_at: stored.created_at,
            updated_at: now,
        },
    )
}

} // verus!
