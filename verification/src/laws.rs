//! What holds of the operations on every input, proved from the step
//! functions that the operations are verified against.

use crate::accounts::{
    ConsumeTokens, RewardNode, RewardSeed, RewardUpload, StakeTokens, UnstakeTokens,
};
use crate::errors::ErrorCode;
use crate::events::{NodeRewardEvent, SeedRewardEvent, SpeedBoostEvent, UploadRewardEvent};
use crate::rewards::{
    consume_for_speed_step, node_reward, node_reward_overflows, node_reward_refusal,
    reward_seeding_step, reward_super_node_step, reward_upload_step, seed_reward,
    seed_reward_overflows, stake_for_node_step, unstake_tokens_step, upload_reward_overflows,
};
use crate::units::{MIN_STAKE, MIN_UPTIME};
use vstd::prelude::*;

verus! {

/// An upload whose arithmetic stays in range succeeds and raises the balance
/// and the pool's distributed total by exactly size × rate × rarity, and the
/// uploaded volume by the size. The volume grows strictly for a size above
/// zero, the balance and the distributed total for a size, a rate and a
/// rarity all above zero.
pub proof fn lemma_upload_raises_totals(ctx: RewardUpload, size_gb: u64, rarity_multiplier: u64)
    requires
        !upload_reward_overflows(ctx, size_gb, rarity_multiplier),
    ensures
        ({
            let (after, res) = reward_upload_step(ctx, size_gb, rarity_multiplier);
            let rate = ctx.reward_pool.upload_reward_rate;
            let reward = size_gb * rate * rarity_multiplier;
            &&& res is Ok
            &&& res->Ok_0.amount == reward
            &&& after.user_account.balance == ctx.user_account.balance + reward
            &&& after.user_account.total_uploaded == ctx.user_account.total_uploaded + size_gb
            &&& after.reward_pool.total_distributed == ctx.reward_pool.total_distributed + reward
            &&& size_gb > 0 ==> after.user_account.total_uploaded > ctx.user_account.total_uploaded
            &&& size_gb > 0 && rate > 0 && rarity_multiplier > 0 ==> {
                &&& after.user_account.balance > ctx.user_account.balance
                &&& after.reward_pool.total_distributed > ctx.reward_pool.total_distributed
            }
        }),
{
    let rate = ctx.reward_pool.upload_reward_rate;
    if size_gb > 0 && rate > 0 && rarity_multiplier > 0 {
        assert(size_gb * rate * rarity_multiplier > 0) by (nonlinear_arith)
            requires
                size_gb > 0,
                rate > 0,
                rarity_multiplier > 0,
        ;
    }
}

/// With the stake floor met, an uptime below the floor is refused as
/// `LowUptime` whatever the other inputs are, and the records stay as they
/// were.
pub proof fn lemma_low_uptime_is_refused(ctx: RewardNode, duration_hours: u64, uptime_percentage: u8)
    requires
        uptime_percentage < MIN_UPTIME,
        ctx.user_account.staked_amount >= MIN_STAKE,
    ensures
        reward_super_node_step(ctx, duration_hours, uptime_percentage) == (
            ctx,
            Err::<NodeRewardEvent, ErrorCode>(ErrorCode::LowUptime),
        ),
{
}

/// A stake below the floor is refused as `InsufficientStake` whatever the
/// uptime and the duration are, and the records stay as they were.
pub proof fn lemma_low_stake_is_refused(ctx: RewardNode, duration_hours: u64, uptime_percentage: u8)
    requires
        ctx.user_account.staked_amount < MIN_STAKE,
    ensures
        reward_super_node_step(ctx, duration_hours, uptime_percentage) == (
            ctx,
            Err::<NodeRewardEvent, ErrorCode>(ErrorCode::InsufficientStake),
        ),
{
}

/// The node reward by uptime tier: six fifths of the base reward from 99
/// percent up, eleven tenths from 95 to 98, the base reward itself from 90 to
/// 94, each rounded down. A node reward that is not refused credits exactly
/// that amount to the balance and to the pool's distributed total.
pub proof fn lemma_node_reward_tiers(ctx: RewardNode, duration_hours: u64, uptime_percentage: u8)
    ensures
        ({
            let rate = ctx.reward_pool.node_reward_rate;
            let base = duration_hours * rate;
            let reward = node_reward(rate, duration_hours, uptime_percentage);
            let (after, res) = reward_super_node_step(ctx, duration_hours, uptime_percentage);
            &&& uptime_percentage >= 99 ==> reward == base * 120 / 100
            &&& 95 <= uptime_percentage <= 98 ==> reward == base * 110 / 100
            &&& 90 <= uptime_percentage <= 94 ==> reward == base
            &&& node_reward_refusal(ctx, duration_hours, uptime_percentage) is None ==> {
                &&& res is Ok
                &&& res->Ok_0.amount == reward
                &&& after.user_account.balance == ctx.user_account.balance + reward
                &&& after.user_account.node_operation_hours
                    == ctx.user_account.node_operation_hours + duration_hours
                &&& after.reward_pool.total_distributed == ctx.reward_pool.total_distributed
                    + reward
            }
        }),
{
}

/// The seeding reward by popularity tier: one and a half times the base
/// reward from rank 80 up, one and a quarter from 50 to 79, twice the base
/// reward up to rank 20, the base reward itself from 21 to 49, each rounded
/// down. A seeding reward that is not refused credits exactly that amount to
/// the balance; refused or not, it leaves the pool as it was.
pub proof fn lemma_seed_reward_tiers(ctx: RewardSeed, duration_hours: u64, file_popularity: u8)
    ensures
        ({
            let rate = ctx.reward_pool.seed_reward_rate;
            let base = duration_hours * rate;
            let reward = seed_reward(rate, duration_hours, file_popularity);
            let (after, res) = reward_seeding_step(ctx, duration_hours, file_popularity);
            &&& file_popularity >= 80 ==> reward == base * 150 / 100
            &&& 50 <= file_popularity <= 79 ==> reward == base * 125 / 100
            &&& file_popularity <= 20 ==> reward == base * 2
            &&& 21 <= file_popularity <= 49 ==> reward == base
            &&& after.reward_pool == ctx.reward_pool
            &&& !seed_reward_overflows(ctx, duration_hours, file_popularity) ==> {
                &&& res is Ok
                &&& res->Ok_0.amount == reward
                &&& after.user_account.balance == ctx.user_account.balance + reward
                &&& after.user_account.seeding_hours == ctx.user_account.seeding_hours
                    + duration_hours
            }
        }),
{
}

/// A spend is refused as `InsufficientBalance` exactly when it asks for more
/// than the balance. One that the balance covers, and that keeps the spent
/// total in range, lowers the balance and raises the spent total by exactly
/// the amount.
pub proof fn lemma_consume_debits_exactly(ctx: ConsumeTokens, amount: u64)
    ensures
        ({
            let (after, res) = consume_for_speed_step(ctx, amount);
            &&& res == Err::<SpeedBoostEvent, ErrorCode>(ErrorCode::InsufficientBalance)
                <==> amount > ctx.user_account.balance
            &&& amount <= ctx.user_account.balance && ctx.user_account.total_consumed + amount
                <= u64::MAX ==> {
                &&& res is Ok
                &&& res->Ok_0.new_balance == ctx.user_account.balance - amount
                &&& after.user_account.balance == ctx.user_account.balance - amount
                &&& after.user_account.total_consumed == ctx.user_account.total_consumed
                    + amount
            }
        }),
{
}

/// Staking an amount and at once unstaking the same amount, both accepted,
/// gives back the ledger that was there before: the balance, the stake and
/// every other field. `unstake` is the call that follows: it works on the
/// ledger that the stake left.
pub proof fn lemma_stake_then_unstake_restores(
    stake: StakeTokens,
    unstake: UnstakeTokens,
    amount: u64,
)
    requires
        stake_for_node_step(stake, amount).1 is Ok,
        unstake.user_account == stake_for_node_step(stake, amount).0.user_account,
        unstake_tokens_step(unstake, amount).1 is Ok,
    ensures
        ({
            let restored = unstake_tokens_step(unstake, amount).0.user_account;
            &&& restored.balance == stake.user_account.balance
            &&& restored.staked_amount == stake.user_account.staked_amount
            &&& restored == stake.user_account
        }),
{
}

/// An upload reward whose arithmetic leaves the 64-bit range is refused as
/// `MathOverflow` and changes no field of either record.
pub proof fn lemma_upload_overflow_changes_nothing(
    ctx: RewardUpload,
    size_gb: u64,
    rarity_multiplier: u64,
)
    requires
        upload_reward_overflows(ctx, size_gb, rarity_multiplier),
    ensures
        reward_upload_step(ctx, size_gb, rarity_multiplier) == (
            ctx,
            Err::<UploadRewardEvent, ErrorCode>(ErrorCode::MathOverflow),
        ),
{
}

/// A node reward whose arithmetic leaves the 64-bit range is refused and
/// changes no field of either record.
pub proof fn lemma_node_overflow_changes_nothing(
    ctx: RewardNode,
    duration_hours: u64,
    uptime_percentage: u8,
)
    requires
        node_reward_overflows(ctx, duration_hours, uptime_percentage),
    ensures
        reward_super_node_step(ctx, duration_hours, uptime_percentage).0 == ctx,
        reward_super_node_step(ctx, duration_hours, uptime_percentage).1 is Err,
{
}

/// A seeding reward whose arithmetic leaves the 64-bit range is refused as
/// `MathOverflow` and changes no field of either record.
pub proof fn lemma_seed_overflow_changes_nothing(
    ctx: RewardSeed,
    duration_hours: u64,
    file_popularity: u8,
)
    requires
        seed_reward_overflows(ctx, duration_hours, file_popularity),
    ensures
        reward_seeding_step(ctx, duration_hours, file_popularity) == (
            ctx,
            Err::<SeedRewardEvent, ErrorCode>(ErrorCode::MathOverflow),
        ),
{
}

/// A spend that would take the spent total out of the 64-bit range is
/// refused and changes no field of the ledger.
pub proof fn lemma_consume_overflow_changes_nothing(ctx: ConsumeTokens, amount: u64)
    requires
        ctx.user_account.total_consumed + amount > u64::MAX,
    ensures
        consume_for_speed_step(ctx, amount).0 == ctx,
        consume_for_speed_step(ctx, amount).1 is Err,
{
}

/// A deposit that would take the stake out of the 64-bit range is refused
/// and changes no field of the ledger.
pub proof fn lemma_stake_overflow_changes_nothing(ctx: StakeTokens, amount: u64)
    requires
        ctx.user_account.staked_amount + amount > u64::MAX,
    ensures
        stake_for_node_step(ctx, amount).0 == ctx,
        stake_for_node_step(ctx, amount).1 is Err,
{
}

/// A release that would take the balance out of the 64-bit range is refused
/// and changes no field of the ledger.
pub proof fn lemma_unstake_overflow_changes_nothing(ctx: UnstakeTokens, amount: u64)
    requires
        ctx.user_account.balance + amount > u64::MAX,
    ensures
        unstake_tokens_step(ctx, amount).0 == ctx,
        unstake_tokens_step(ctx, amount).1 is Err,
{
}

/// Staking and unstaking only move units between the balance and the stake:
/// what the participant holds in all is the same before and after, accepted
/// or refused.
pub proof fn lemma_stake_moves_conserve_holdings(
    stake: StakeTokens,
    unstake: UnstakeTokens,
    amount: u64,
)
    ensures
        stake_for_node_step(stake, amount).0.user_account.holdings()
            == stake.user_account.holdings(),
        unstake_tokens_step(unstake, amount).0.user_account.holdings()
            == unstake.user_account.holdings(),
{
}

/// A field goes down only by the debit that is meant to lower it: the balance
/// by a spend or a deposit into the stake, the stake by a release. Everything
/// else, the usage counters and the pool's distributed total among it, only
/// ever stays or grows.
pub proof fn lemma_fields_fall_only_by_debits(
    upload: RewardUpload,
    node: RewardNode,
    seed: RewardSeed,
    spend: ConsumeTokens,
    stake: StakeTokens,
    unstake: UnstakeTokens,
    quantity: u64,
    factor: u64,
    percentage: u8,
)
    ensures
        ({
            let after = reward_upload_step(upload, quantity, factor).0;
            &&& after.user_account.usage_at_least(upload.user_account)
            &&& after.user_account.balance >= upload.user_account.balance
            &&& after.reward_pool.total_distributed >= upload.reward_pool.total_distributed
        }),
        ({
            let after = reward_super_node_step(node, quantity, percentage).0;
            &&& after.user_account.usage_at_least(node.user_account)
            &&& after.user_account.balance >= node.user_account.balance
            &&& after.reward_pool.total_distributed >= node.reward_pool.total_distributed
        }),
        ({
            let after = reward_seeding_step(seed, quantity, percentage).0;
            &&& after.user_account.usage_at_least(seed.user_account)
            &&& after.user_account.balance >= seed.user_account.balance
        }),
        ({
            let after = consume_for_speed_step(spend, quantity).0;
            &&& after.user_account.usage_at_least(spend.user_account)
            &&& after.user_account.balance <= spend.user_account.balance
        }),
        ({
            let after = stake_for_node_step(stake, quantity).0;
            &&& after.user_account.usage_at_least(stake.user_account)
            &&& after.user_account.balance <= stake.user_account.balance
            &&& after.user_account.staked_amount >= stake.user_account.staked_amount
        }),
        ({
            let after = unstake_tokens_step(unstake, quantity).0;
            &&& after.user_account.usage_at_least(unstake.user_account)
            &&& after.user_account.balance >= unstake.user_account.balance
            &&& after.user_account.staked_amount <= unstake.user_account.staked_amount
        }),
{
    let upload_rate = upload.reward_pool.upload_reward_rate;
    assert(quantity * upload_rate * factor >= 0) by (nonlinear_arith);
    let node_rate = node.reward_pool.node_reward_rate;
    assert(quantity * node_rate >= 0) by (nonlinear_arith);
    let seed_rate = seed.reward_pool.seed_reward_rate;
    assert(quantity * seed_rate >= 0) by (nonlinear_arith);
}

/// No reward and no spend touches the stake.
pub proof fn lemma_only_stake_moves_change_stake(
    upload: RewardUpload,
    node: RewardNode,
    seed: RewardSeed,
    spend: ConsumeTokens,
    quantity: u64,
    factor: u64,
    percentage: u8,
)
    ensures
        reward_upload_step(upload, quantity, factor).0.user_account.staked_amount
            == upload.user_account.staked_amount,
        reward_super_node_step(node, quantity, percentage).0.user_account.staked_amount
            == node.user_account.staked_amount,
        reward_seeding_step(seed, quantity, percentage).0.user_account.staked_amount
            == seed.user_account.staked_amount,
        consume_for_speed_step(spend, quantity).0.user_account.staked_amount
            == spend.user_account.staked_amount,
{
}

} // verus!
