//! Accounting and lifecycle core of a multi-round token presale.
//!
//! The library is the deterministic heart of the sale: it prices purchases
//! across three configured rounds, keeps per-buyer vesting schedules with an
//! immediate-release slice, a cliff and a linear tail, latches the soft-cap
//! and finalization flags, and decides claims, refunds and the time-locked
//! emergency withdrawal. Every state change is a pure command on plain
//! values; the host that moves actual value, authenticates signers and
//! supplies the clock sits outside and calls in with the results.

pub mod engine;
pub mod errors;
pub mod events;
pub mod math;
pub mod state;
pub mod vesting;
