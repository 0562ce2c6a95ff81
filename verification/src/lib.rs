//! A two-party escrow for externally judged competitions.
//!
//! A creator stakes funds on a challenge; an acceptor matches the stake;
//! a trusted oracle settles the outcome and splits the pot; an unaccepted
//! challenge can be cancelled after its acceptance window closes. Every
//! lifecycle transition couples the status change with the matching vault
//! movement, and the contracts here pin down exactly when each transition
//! succeeds, which error it returns otherwise, and that a failed transition
//! leaves both the challenge record and the vault untouched.
//!
//! The hosting environment is expected to authenticate callers, hold the
//! actual account balances, apply the transfers that the returned events
//! describe, and supply the current time.

pub mod challenge;
pub mod config;
pub mod errors;
pub mod guards;
pub mod identity;
pub mod laws;
pub mod lifecycle;
pub mod vault;
