//! Pricing engine of a bonding-curve launchpad: curve parameters, the
//! fixed-point solver, fees, swap quotes and the pool's reserve ledger.

pub mod consts;
pub mod endpoints;
pub mod err;
pub mod libraries;
pub mod math;
pub mod models;
