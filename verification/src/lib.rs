//! Admission and authorization gateway.
//!
//! The library gates every inbound request before any routing happens:
//! a persistent IP blacklist rejects banned clients outright, a
//! fixed-window rate counter escalates abusive clients onto that
//! blacklist, and a role-ordered authorization gate decides whether a
//! resolved identity may perform a privileged operation.

use vstd::prelude::*;

pub mod addr;
pub mod admin;
pub mod auth;
pub mod authz;
pub mod ban;
mod clock;
pub mod admission;
pub mod content;
pub mod errors;
pub mod ids;
pub mod laws;
pub mod logging;
pub mod rate;

verus! {

/// The fixed-window request threshold used by the reference deployment.
pub const REQUEST_LIMIT: u32 = 40;

/// The width of a rate-counting bucket, in seconds, used by the
/// reference deployment.
pub const WINDOW_WIDTH_SECONDS: u64 = 10;

} // verus!
