//! The application's services: what each request computes between reading
//! and writing the stores.
pub mod registration;
pub mod activity;
pub mod masterclass;
pub mod speaker;
pub mod sponsor;
pub mod venue;
pub mod organization;
pub mod client;
pub mod exhibitor;
pub mod group_discount;
pub mod participant;
pub mod user;
pub mod auth;
pub mod conference;
pub mod price_tier;
