//! The records the application keeps.
pub mod activity_booking;
pub mod participant;
pub mod registration;
pub mod price_tier;
pub mod conference;
pub mod group_discount;
pub mod organization;
pub mod client;
pub mod promo_code;
