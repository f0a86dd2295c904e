//! Clients: the people behind registrations.
use vstd::prelude::*;
use crate::clock::Timestamp;

verus! {

/// A client as stored.
#[derive(Debug, Clone)]
pub struct ClientEntity {
    pub id: u64,
    pub organization_id: Option<u64>,
    pub first_name: String,
    pub last_name: String,
    pub email: String,
    pub created_at: Timestamp,
    pub updated_at: Timestamp,
}

} // verus!
