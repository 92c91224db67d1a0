//! A single-asset fungible-token ledger: per-account balances, transfers with a
//! flat fee that is split between a fee recipient and an auction escrow, mints,
//! burns, one-time claims, and an append-only transaction history that doubles
//! as the replay guard.
//!
//! Every operation takes the ledger state and the current time explicitly, and
//! either commits completely or leaves the state untouched.

pub mod account;
pub mod amount;
pub mod balances;
pub mod claims;
pub mod error;
pub mod fee;
pub mod laws;
pub mod ledger;
pub mod model;
pub mod state;
pub mod table;
pub mod transactions;
pub mod types;
