//! Accounting core of a linear token-vesting escrow.
//!
//! A sender deposits a fixed quantity of fungible tokens into custody for a
//! beneficiary; the beneficiary may withdraw an amount that grows linearly
//! with elapsed time after an optional cliff, up to the total deposited.
//! This crate holds the ledger record, the claimable-amount formula and the
//! withdrawal transition, each with a proved contract. Moving the tokens
//! themselves is the host's concern and stays outside the library.

pub mod errors;
pub mod stream;
pub mod laws;
pub mod engine;
