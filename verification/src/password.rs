//! Password hashing with Argon2 (default parameters, random salt).
use vstd::prelude::*;
use crate::error::AppError;
use argon2::{Argon2, PasswordHash, PasswordHasher, PasswordVerifier};
use argon2::password_hash::SaltString;
use argon2::password_hash::rand_core::OsRng;

verus! {

/// Whether `hash` is a PHC hash string that Argon2 accepts for `password`:
/// what `PasswordHash::new` and `Argon2::verify_password` decide together.
pub uninterp spec fn argon2_accepts(password: Seq<char>, hash: Seq<char>) -> bool;

/// The most characters a password may have and still be hashed: at four
/// bytes a character at most, such a password stays within Argon2's limit of
/// `0xFFFFFFFF` bytes.
pub const MAX_PASSWORD_CHARS: u64 = 0x3fff_ffffu64;

/// `Argon2::default().hash_password` with a salt from `SaltString::generate`
/// (the operating system's random source), as a PHC string.  Claimed: a hash
/// it returns is accepted for the same password (the salt and parameters are
/// written into the string, which the verifier reads back); and hashing
/// succeeds for a password within the length limit (with the default
/// parameters and a generated 16-byte salt, Argon2's only error is a password
/// longer than `0xFFFFFFFF` bytes).  Nothing is claimed of the hash itself,
/// which depends on the random salt.
#[verifier::external_body]
fn argon2_hash(password: &str) -> (r: Result<String, String>)
    ensures
        r matches Ok(h) ==> argon2_accepts(password@, h@),
        password@.len() <= MAX_PASSWORD_CHARS ==> r is Ok,
{
    let salt = SaltString::generate(&mut OsRng);
    Argon2::default().hash_password(password.as_bytes(), &salt).map(|h| h.to_string()).map_err(|e| e.to_string())
}

/// Whether the text has the first mark of a PHC string: it begins with `$`.
pub open spec fn starts_like_phc(s: Seq<char>) -> bool {
    s.len() > 0 && s[0] == '$'
}

/// `PasswordHash::new` on the hash string, then
/// `Argon2::default().verify_password`: `true` when both succeed.  Claimed: the
/// answer is the name for this check on the two strings; and a string that
/// does not begin with `$` is refused (`PasswordHash::new` rejects an empty
/// string and one whose first field is not empty).
#[verifier::external_body]
fn argon2_verify(password: &str, hash: &str) -> (r: bool)
    ensures
        r == argon2_accepts(password@, hash@),
        !starts_like_phc(hash@) ==> !r,
{
    match PasswordHash::new(hash) {
        Ok(parsed) => Argon2::default().verify_password(password.as_bytes(), &parsed).is_ok(),
        Err(_) => false,
    }
}

/// Hashes a password for storage; a failure of the hasher (only for a
/// password past the length limit) is an internal error carrying its text.
/// A hash it gives verifies the same password.
pub fn hash_password(password: &str) -> (r: Result<String, AppError>)
    ensures
        r matches Ok(h) ==> argon2_accepts(password@, h@),
        r matches Err(e) ==> e is Internal,
        password@.len() <= MAX_PASSWORD_CHARS ==> r is Ok,
{
    match argon2_hash(password) {
        Ok(h) => Ok(h),
        Err(m) => Err(AppError::Internal(m)),
    }
}

/// Checks a password against a stored hash; a hash that does not parse (one
/// that does not begin with `$` among them), or a password that does not
/// match it, is unauthorized.
pub fn verify_password(password: &str, password_hash: &str) -> (r: Result<(), AppError>)
    ensures
        r is Ok <==> argon2_accepts(password@, password_hash@),
        r matches Err(e) ==> e == AppError::Unauthorized,
        !starts_like_phc(password_hash@) ==> r == Err::<(), AppError>(AppError::Unauthorized),
{
    if argon2_verify(password, password_hash) {
        Ok(())
    } else {
        Err(AppError::Unauthorized)
    }
}

} // verus!
