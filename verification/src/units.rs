//! The fixed-point unit model shared by every formula.
//!
//! Token quantities are unsigned 64-bit counts of the smallest unit, one
//! billionth of a token. Nothing here is fractional.

use vstd::prelude::*;

verus! {

/// Units in one whole token.
pub const UNITS_PER_TOKEN: u64 = 1_000_000_000;

/// The stake floor in whole tokens.
pub const MIN_STAKE_TOKENS: u64 = 10_000;

/// The stake floor in units.
pub const MIN_STAKE: u64 = 10_000_000_000_000;

/// The lowest uptime percentage that still earns a node reward.
pub const MIN_UPTIME: u8 = 90;

/// Units credited per uploaded gigabyte when a pool is first created.
pub const DEFAULT_UPLOAD_REWARD_RATE: u64 = 2_000_000_000;

/// Units credited per hour of node operation when a pool is first created.
pub const DEFAULT_NODE_REWARD_RATE: u64 = 5_000_000_000;

/// Units credited per hour of seeding when a pool is first created.
pub const DEFAULT_SEED_REWARD_RATE: u64 = 100_000_000;

/// The multiplier, in percent, that an uptime percentage earns.
pub open spec fn uptime_bonus(uptime_percentage: u8) -> int {
    if uptime_percentage >= 99 {
        120
    } else if uptime_percentage >= 95 {
        110
    } else {
        100
    }
}

/// The multiplier, in percent, that a file's popularity rank earns. The tiers
/// are tried in this order and the first that matches wins; the band between
/// the rare and the popular files earns no bonus.
pub open spec fn popularity_bonus(file_popularity: u8) -> int {
    if file_popularity >= 80 {
        150
    } else if file_popularity >= 50 {
        125
    } else if file_popularity <= 20 {
        200
    } else {
        100
    }
}

/// `base` scaled by a percentage, rounded down to a whole unit.
pub open spec fn scaled(base: int, percent: int) -> int {
    base * percent / 100
}

/// The stake floor in units is the stake floor in whole tokens: the ledger
/// and the node configuration ask for the same stake.
pub proof fn lemma_stake_floors_agree()
    ensures
        MIN_STAKE == MIN_STAKE_TOKENS * UNITS_PER_TOKEN,
{
}

} // verus!
