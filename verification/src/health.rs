//! Health probes.
use vstd::prelude::*;

verus! {

/// The readiness answer: not ready without a database, or when no
/// connection can be had from it.
pub fn readiness(database_initialized: bool, connection_acquired: bool) -> (r: Result<&'static str, &'static str>)
    ensures
        !database_initialized ==> (r matches Err(m) && m@ == "Database Non Initialized"@),
        database_initialized && !connection_acquired ==> (r matches Err(m) && m@ == "Database Unavailable"@),
        database_initialized && connection_acquired ==> (r matches Ok(m) && m@ == "Ok"@),
{
    if !database_initialized {
        Err("Database Non Initialized")
    } else if !connection_acquired {
        Err("Database Unavailable")
    } else {
        Ok("Ok")
    }
}

/// The liveness answer.
pub fn liveness() -> (r: &'static str)
    ensures
        r@ == "Ok"@,
{
    "Ok"
}

/// The status reported by the basic health check.
pub fn health_status() -> (r: &'static str)
    ensures
        r@ == "healthy"@,
{
    "healthy"
}

} // verus!
