//! Reports for dashboards.

pub mod consumption;
pub mod hour_range;
pub mod columns;
pub mod organization;
pub mod pagination;
pub mod platform;
pub mod provider_attribution;
pub mod revenue;
