//! A single-player wager-settlement engine for a "guess the outcome" spin
//! game on an account-addressable ledger. A player commits a wager against a
//! verifiable-randomness oracle record, a program-controlled escrow vault
//! holds the pooled funds, and settlement derives the outcome from the
//! oracle's revealed bytes and pays out double the wager on a win.

pub mod engine;
pub mod error;
pub mod laws;
pub mod oracle;
pub mod state;
pub mod vault;
