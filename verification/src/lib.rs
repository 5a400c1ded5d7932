//! A verified model of the StellarPass membership and access-control contract.

pub mod types;
pub mod rules;
pub mod contract;
pub mod laws;
