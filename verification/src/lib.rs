//! Pricing and settlement core of a token-launch bonding-curve exchange.
//!
//! Given a token's reserve state, the library computes how much of one asset
//! a trader receives for a given amount of the other, applies creator and
//! platform fees, updates reserve state atomically, tracks per-user cost
//! basis, and detects when a funding threshold is reached. All value
//! movement, account handling and clock access belong to the host; the core
//! works on plain value snapshots.

pub mod curve;
pub mod executor;
pub mod fees;
pub mod gate;
pub mod math;
pub mod position;
