//! Accounting core of a token-incentivised storage network: reward credits,
//! the stake/spend ledger of each participant, and the node configuration
//! rules that gate participation.

pub mod accounts;
pub mod config;
pub mod errors;
pub mod events;
pub mod identity;
pub mod laws;
pub mod rewards;
pub mod state;
pub mod units;
