//! The IDO contract: sales of SNIP-20 tokens in which how much a buyer may
//! buy depends on the buyer's tier.
pub mod msg;
pub mod state;
pub mod tier;
pub mod utils;
pub mod contract;
