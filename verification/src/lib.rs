//! Lifecycle management for the fleet and fleet-crd releases of an external
//! package manager: version resolution, values-payload construction, request
//! building and outcome classification for a reconciliation loop.

pub mod chart;
pub mod errors;
pub mod install;
pub mod laws;
pub mod metadata;
pub mod outcome;
pub mod values;
