//! Accounting for time-based token vesting: a schedule of per-user entries,
//! the linear release curve, and the claim operation that moves unlocked
//! tokens into each entry's claimed counter.

pub mod schedule;
pub mod engine;
pub mod handler;
pub mod laws;
