//! What the HTTP endpoints decide.
pub mod users;
