//! The tier contract: users delegate SCRT and reach a tier by the USD value
//! of their deposit.
pub mod band;
pub mod msg;
pub mod state;
pub mod utils;
pub mod contract;
