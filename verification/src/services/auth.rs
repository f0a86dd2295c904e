//! Signing in: checking a user's password and what the issued token says.
use vstd::prelude::*;
use crate::clock::Timestamp;
use crate::error::{AppError, DomainError};
use crate::password::{argon2_accepts, verify_password};
use crate::services::user::User;
use crate::text::owned;

verus! {

/// How long an issued token is valid, in seconds (24 hours).
pub const TOKEN_LIFETIME_SECS: i64 = 86400i64;

/// What a token states: the user, their email, when it was issued and when
/// it expires (seconds since the epoch).
#[derive(Debug, Clone)]
pub struct Claims {
    pub sub: u64,
    pub email: String,
    pub iat: usize,
    pub exp: usize,
}

/// The authentication service; `C` is its configuration (which holds the
/// signing secret) and `U` the user service it looks users up with.
pub struct AuthServiceImpl<C, U> {
    config: C,
    user_service: U,
}

impl<C, U> AuthServiceImpl<C, U> {
    /// The configuration.
    pub closed spec fn spec_config(&self) -> C {
        self.config
    }

    /// The user service.
    pub closed spec fn spec_user_service(&self) -> U {
        self.user_service
    }

    /// A service with the given configuration and user service.
    pub fn new(config: C, user_service: U) -> (r: Self)
        ensures
            r.spec_config() == config,
            r.spec_user_service() == user_service,
    {
        AuthServiceImpl { config, user_service }
    }

    /// The configuration.
    pub fn config(&self) -> (r: &C)
        ensures
            *r == self.spec_config(),
    {
        &self.config
    }

    /// The user service.
    pub fn user_service(&self) -> (r: &U)
        ensures
            *r == self.spec_user_service(),
    {
        &self.user_service
    }
}

/// Signs a user in from the result of looking them up by email: an unknown
/// email and a wrong password are both unauthorized; any other failure of
/// the lookup is passed on.
pub fn authenticate(found: Result<User, AppError>, password: &str) -> (r: Result<User, AppError>)
    ensures
        match found {
            Err(AppError::Domain(DomainError::NotFound)) => r == Err::<User, AppError>(AppError::Unauthorized),
            Err(e) => r == Err::<User, AppError>(e),
            Ok(u) => if argon2_accepts(password@, u.password_hash@) {
                r == Ok::<User, AppError>(u)
            } else {
                r == Err::<User, AppError>(AppError::Unauthorized)
            },
        },
{
    let user = match found {
        Ok(u) => u,
        Err(e) => {
            return match e {
                AppError::Domain(DomainError::NotFound) => Err(AppError::Unauthorized),
                _ => Err(e),
            };
        },
    };
    match verify_password(password, user.password_hash.as_str()) {
        Ok(()) => Ok(user),
        Err(e) => Err(e),
    }
}

/// The claims of a token issued at `now` for a user: issued now, expiring 24
/// hours later, both as seconds since the epoch converted to `usize`.
pub fn token_claims(user_id: u64, email: &str, now: Timestamp) -> (r: Claims)
    requires
        now.secs <= i64::MAX - TOKEN_LIFETIME_SECS,
    ensures
        r.sub == user_id,
        r.email@ == email@,
        r.iat == now.secs as usize,
        r.exp == (now.secs + TOKEN_LIFETIME_SECS) as usize,
{
    let expires = now.secs + TOKEN_LIFETIME_SECS;
    Claims { sub: user_id, email: owned(email), iat: now.secs as usize, exp: expires as usize }
}

} // verus!
