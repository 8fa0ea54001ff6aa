//! A conditional-escrow engine: a creator locks tokens against a habit with a
//! deadline, a designated judge renders a single binary verdict after the
//! deadline, and a grace-period fallback lets anyone return unjudged funds to
//! the success destination.

pub mod account;
pub mod destination;
pub mod engine;
pub mod errors;
pub mod events;
pub mod habit;
pub mod laws;
