//! Custodial escrow state machine for a fixed-buy-in multiplayer wagering game.
//!
//! One `GameEscrow` record tracks a single game instance: participants deposit
//! a fixed buy-in into the record's custodied balance, an operator drives the
//! lifecycle, and the pool is released either to a declared winner or back to
//! the participants as individually claimed refunds after cancellation.
//!
//! The hosting platform is expected to authenticate callers, resolve the
//! record for a game identifier, supply a trusted clock reading, and execute
//! operations on one record serially. Every operation here is a pure
//! read-validate-mutate step on the record and the balances handed to it:
//! a rejected operation leaves the record and all balances unchanged.

pub mod counting;
pub mod errors;
pub mod escrow;
pub mod laws;
