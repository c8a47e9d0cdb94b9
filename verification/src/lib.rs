//! Trustless escrow-and-payout engine for a commit-reveal guessing game.
//!
//! An operator commits to a secret answer as a SHA-256 hash before a round
//! accepts deposits; participants deposit value into a custodial vault; at
//! close the operator reveals answer and salt, the engine checks the reveal
//! against the commitment and splits the pooled value in basis points among
//! a winner, an evidence pool, the treasury, and a rollover carried into
//! future rounds. A permissionless escape valve force-expires an abandoned
//! round after a grace period, forfeiting the reveal.

pub mod close;
pub mod commit;
pub mod create_round;
pub mod deposit;
pub mod emergency_expire;
pub mod errors;
pub mod escrow;
pub mod events;
pub mod expire;
pub mod initialize;
pub mod lifecycle;
pub mod payout;
pub mod settle;
pub mod state;
pub mod utils;
