//! The two persisted records: the reward pool and the participant ledger.

use crate::units::{DEFAULT_NODE_REWARD_RATE, DEFAULT_SEED_REWARD_RATE, DEFAULT_UPLOAD_REWARD_RATE};
use anchor_lang::prelude::Pubkey;
use vstd::prelude::*;

verus! {

/// The singleton record holding the reward rates and the running total of
/// distributed units.
#[derive(Clone, Copy, Debug, PartialEq, Eq)]
pub struct RewardPool {
    /// The identity that created the pool.
    pub authority: Pubkey,
    /// Units set aside for rewards; no operation writes it after creation.
    pub total_rewards: u64,
    /// Units credited to participants so far by uploads and node operation.
    pub total_distributed: u64,
    /// Units per uploaded gigabyte.
    pub upload_reward_rate: u64,
    /// Units per hour of node operation.
    pub node_reward_rate: u64,
    /// Units per hour of seeding.
    pub seed_reward_rate: u64,
}

impl RewardPool {
    /// A pool as it stands right after creation: nothing distributed, the
    /// default rates.
    pub open spec fn created_by(authority: Pubkey) -> RewardPool {
        RewardPool {
            authority,
            total_rewards: 0,
            total_distributed: 0,
            upload_reward_rate: DEFAULT_UPLOAD_REWARD_RATE,
            node_reward_rate: DEFAULT_NODE_REWARD_RATE,
            seed_reward_rate: DEFAULT_SEED_REWARD_RATE,
        }
    }

    /// The pool after `amount` more units were handed out.
    pub open spec fn distributed(self, amount: int) -> RewardPool {
        RewardPool { total_distributed: (self.total_distributed + amount) as u64, ..self }
    }
}

/// The ledger of one participant.
#[derive(Clone, Copy, Debug, PartialEq, Eq)]
pub struct UserAccount {
    /// The identity this ledger belongs to.
    pub owner: Pubkey,
    /// Spendable units.
    pub balance: u64,
    /// Units locked as stake; never part of `balance`.
    pub staked_amount: u64,
    /// Gigabytes uploaded so far.
    pub total_uploaded: u64,
    /// Units spent on speed so far.
    pub total_consumed: u64,
    /// Hours spent seeding so far.
    pub seeding_hours: u64,
    /// Hours spent operating a node so far.
    pub node_operation_hours: u64,
    /// Reserved for a score from 0 to 1000; no operation writes it.
    pub reputation_score: u32,
}

impl UserAccount {
    /// The ledger after an upload of `size_gb` gigabytes earned `reward` units.
    pub open spec fn after_upload(self, size_gb: u64, reward: int) -> UserAccount {
        UserAccount {
            balance: (self.balance + reward) as u64,
            total_uploaded: (self.total_uploaded + size_gb) as u64,
            ..self
        }
    }

    /// The ledger after `hours` of node operation earned `reward` units.
    pub open spec fn after_node_operation(self, hours: u64, reward: int) -> UserAccount {
        UserAccount {
            balance: (self.balance + reward) as u64,
            node_operation_hours: (self.node_operation_hours + hours) as u64,
            ..self
        }
    }

    /// The ledger after `hours` of seeding earned `reward` units.
    pub open spec fn after_seeding(self, hours: u64, reward: int) -> UserAccount {
        UserAccount {
            balance: (self.balance + reward) as u64,
            seeding_hours: (self.seeding_hours + hours) as u64,
            ..self
        }
    }

    /// The ledger after `amount` units were spent.
    pub open spec fn after_spending(self, amount: u64) -> UserAccount {
        UserAccount {
            balance: (self.balance - amount) as u64,
            total_consumed: (self.total_consumed + amount) as u64,
            ..self
        }
    }

    /// The ledger after `amount` units moved from the balance into the stake.
    pub open spec fn after_staking(self, amount: u64) -> UserAccount {
        UserAccount {
            balance: (self.balance - amount) as u64,
            staked_amount: (self.staked_amount + amount) as u64,
            ..self
        }
    }

    /// The ledger after `amount` units moved from the stake back into the
    /// balance.
    pub open spec fn after_unstaking(self, amount: u64) -> UserAccount {
        UserAccount {
            staked_amount: (self.staked_amount - amount) as u64,
            balance: (self.balance + amount) as u64,
            ..self
        }
    }

    /// Everything the participant holds, spendable or staked.
    pub open spec fn holdings(self) -> int {
        self.balance + self.staked_amount
    }

    /// Whether each of the four usage counters is at least what it is in
    /// `earlier`.
    pub open spec fn usage_at_least(self, earlier: UserAccount) -> bool {
        &&& self.total_uploaded >= earlier.total_uploaded
        &&& self.total_consumed >= earlier.total_consumed
        &&& self.seeding_hours >= earlier.seeding_hours
        &&& self.node_operation_hours >= earlier.node_operation_hours
    }
}

} // verus!
