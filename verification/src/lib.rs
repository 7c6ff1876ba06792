//! Offline IP geolocation: resolves one IP address against locally held
//! ASN/organization and city/location databases into a single normalized
//! record, with an early exit for non-routable (bogon) addresses.

pub mod addr;
pub mod model;
pub mod text;
pub mod merge;
pub mod geodb;
pub mod pipeline;
