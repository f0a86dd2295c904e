//! Conference management: registrations, delegates, discounts, pricing and
//! the records kept for each conference.
pub mod money;
pub mod text;
pub mod error;
pub mod clock;
pub mod models;
pub mod delegate_registration;
pub mod update;
pub mod services;
pub mod password;
pub mod handlers;
pub mod health;
pub mod direct_registration;
