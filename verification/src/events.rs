//! What each successful operation announces to the outside.

use anchor_lang::prelude::Pubkey;
use vstd::prelude::*;

verus! {

/// An upload was rewarded.
#[derive(Clone, Copy, Debug, PartialEq, Eq)]
pub struct UploadRewardEvent {
    pub user: Pubkey,
    pub amount: u64,
    pub size_gb: u64,
    pub rarity_multiplier: u64,
}

/// Node operation was rewarded.
#[derive(Clone, Copy, Debug, PartialEq, Eq)]
pub struct NodeRewardEvent {
    pub user: Pubkey,
    pub amount: u64,
    pub duration_hours: u64,
    pub uptime_percentage: u8,
}

/// Seeding was rewarded.
#[derive(Clone, Copy, Debug, PartialEq, Eq)]
pub struct SeedRewardEvent {
    pub user: Pubkey,
    pub amount: u64,
    pub duration_hours: u64,
    pub file_popularity: u8,
}

/// Units were spent on download speed.
#[derive(Clone, Copy, Debug, PartialEq, Eq)]
pub struct SpeedBoostEvent {
    pub user: Pubkey,
    pub amount: u64,
    /// The balance left after the debit.
    pub new_balance: u64,
}

/// Units were staked.
#[derive(Clone, Copy, Debug, PartialEq, Eq)]
pub struct StakeEvent {
    pub user: Pubkey,
    pub amount: u64,
    /// The whole stake after the deposit.
    pub total_staked: u64,
}

/// Units were released from the stake.
#[derive(Clone, Copy, Debug, PartialEq, Eq)]
pub struct UnstakeEvent {
    pub user: Pubkey,
    pub amount: u64,
    /// The stake left after the release.
    pub remaining_staked: u64,
}

} // verus!
