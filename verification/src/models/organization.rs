//! Organizations that delegates belong to.
pub use crate::services::organization::{Organization, OrganizationEntity};
