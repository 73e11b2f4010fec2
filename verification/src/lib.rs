//! Verified core of a tier-staking contract and an IDO (initial DEX offering)
//! contract: tier arithmetic, SCRT/USD conversion, deposit and withdrawal
//! bookkeeping, token sales and the release of locked purchases.
//!
//! The functions here take the values that the contracts read from storage,
//! from the environment and from other contracts, and return the values to
//! store and the messages to send.
pub mod common;
pub mod error;
pub mod seqs;
pub mod ido;
pub mod tier;
