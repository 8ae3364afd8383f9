//! Capital-pooling and reward/slashing accounting core.
//!
//! A node operator raises a capped pool of locked capital from many
//! providers ("positions"), later receives reward deposits that are split
//! proportionally between investors and a fixed list of beneficiaries, and
//! may be subject to a disputed slashing claim that proportionally reduces
//! every provider's eventual capital return.
//!
//! The crate holds the accounting and phase state machine only: vault
//! lifecycle (funding, locked, unlockable), proportional reward and slash
//! arithmetic in basis points, and the position lifecycle (open, update,
//! close). Token transfers, asset minting and burning, clocks and signature
//! checks are collaborators of the surrounding system; every function here
//! takes their inputs as plain values and states its exact effect.

use vstd::prelude::*;

pub mod config;
pub mod errors;
pub mod laws;
pub mod position;
pub mod rewards;
pub mod slashing;
pub mod vault;

verus! {

/// Basis-point denominator: 10 000 basis points are 100%.
pub const BASE_BPS: u16 = 10_000;

/// Shortest lock phase a vault may be created with, and the least width of
/// the configured lock-duration window, in seconds.
pub const MIN_LOCK_PERIOD: i64 = 86_400;

/// Least time between vault creation and the start of its lock phase, in
/// seconds: the fund-raise window can never be empty.
pub const MIN_FUND_RAISE_DURATION: i64 = 3_600;

} // verus!
