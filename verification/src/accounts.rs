//! The records that the host hands to one operation.
//!
//! The host loads each record exclusively for the length of the call and
//! commits what the operation left in it, or nothing where the operation
//! refused. `user` is the identity the host runs the call under; operations
//! copy it into the event they return and read nothing else from it.

use crate::state::{RewardPool, UserAccount};
use anchor_lang::prelude::Pubkey;
use vstd::prelude::*;

verus! {

/// What creating the pool works on.
#[derive(Clone, Copy, Debug, PartialEq, Eq)]
pub struct Initialize {
    pub reward_pool: RewardPool,
}

/// What rewarding an upload works on.
#[derive(Clone, Copy, Debug, PartialEq, Eq)]
pub struct RewardUpload {
    pub reward_pool: RewardPool,
    pub user_account: UserAccount,
    pub user: Pubkey,
}

/// What rewarding node operation works on.
#[derive(Clone, Copy, Debug, PartialEq, Eq)]
pub struct RewardNode {
    pub reward_pool: RewardPool,
    pub user_account: UserAccount,
    pub user: Pubkey,
}

/// What rewarding seeding works on.
#[derive(Clone, Copy, Debug, PartialEq, Eq)]
pub struct RewardSeed {
    pub reward_pool: RewardPool,
    pub user_account: UserAccount,
    pub user: Pubkey,
}

/// What spending units works on.
#[derive(Clone, Copy, Debug, PartialEq, Eq)]
pub struct ConsumeTokens {
    pub user_account: UserAccount,
    pub user: Pubkey,
}

/// What staking works on.
#[derive(Clone, Copy, Debug, PartialEq, Eq)]
pub struct StakeTokens {
    pub user_account: UserAccount,
    pub user: Pubkey,
}

/// What unstaking works on.
#[derive(Clone, Copy, Debug, PartialEq, Eq)]
pub struct UnstakeTokens {
    pub user_account: UserAccount,
    pub user: Pubkey,
}

} // verus!
