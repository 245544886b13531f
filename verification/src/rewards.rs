//! The seven operations on the reward pool and the participant ledgers.
//!
//! Each operation is one atomic step: it makes every check and every
//! calculation first and writes only when all of them passed, so a refused
//! call leaves the records exactly as it found them. What a step does is given
//! by a spec function from the records and the arguments to the records
//! afterwards and the result; the executable function is proved equal to it.

use crate::accounts::{
    ConsumeTokens, Initialize, RewardNode, RewardSeed, RewardUpload, StakeTokens, UnstakeTokens,
};
use crate::errors::ErrorCode;
use crate::events::{
    NodeRewardEvent, SeedRewardEvent, SpeedBoostEvent, StakeEvent, UnstakeEvent, UploadRewardEvent,
};
use crate::state::RewardPool;
use crate::units::{
    popularity_bonus, scaled, uptime_bonus, DEFAULT_NODE_REWARD_RATE, DEFAULT_SEED_REWARD_RATE,
    DEFAULT_UPLOAD_REWARD_RATE, MIN_STAKE, MIN_UPTIME,
};
use anchor_lang::prelude::Pubkey;
use vstd::prelude::*;

verus! {

/// The product of two quantities, or `MathOverflow` when it leaves the
/// unsigned 64-bit range.
fn product(a: u64, b: u64) -> (res: Result<u64, ErrorCode>)
    ensures
        a * b <= u64::MAX ==> res == Ok::<u64, ErrorCode>((a * b) as u64),
        a * b > u64::MAX ==> res == Err::<u64, ErrorCode>(ErrorCode::MathOverflow),
{
    match a.checked_mul(b) {
        Some(value) => Ok(value),
        None => Err(ErrorCode::MathOverflow),
    }
}

/// The sum of two quantities, or `MathOverflow` when it leaves the unsigned
/// 64-bit range.
fn sum(a: u64, b: u64) -> (res: Result<u64, ErrorCode>)
    ensures
        a + b <= u64::MAX ==> res == Ok::<u64, ErrorCode>((a + b) as u64),
        a + b > u64::MAX ==> res == Err::<u64, ErrorCode>(ErrorCode::MathOverflow),
{
    match a.checked_add(b) {
        Some(value) => Ok(value),
        None => Err(ErrorCode::MathOverflow),
    }
}

/// Creates the reward pool for `authority`: nothing distributed yet, and the
/// default rates. Creation cannot fail; that it happens once only is the
/// host's to enforce.
pub fn initialize(ctx: &mut Initialize, authority: Pubkey) -> (res: Result<(), ErrorCode>)
    ensures
        res == Ok::<(), ErrorCode>(()),
        final(ctx).reward_pool == RewardPool::created_by(authority),
{
    ctx.reward_pool.authority = authority;
    ctx.reward_pool.total_rewards = 0;
    ctx.reward_pool.total_distributed = 0;
    ctx.reward_pool.upload_reward_rate = DEFAULT_UPLOAD_REWARD_RATE;
    ctx.reward_pool.node_reward_rate = DEFAULT_NODE_REWARD_RATE;
    ctx.reward_pool.seed_reward_rate = DEFAULT_SEED_REWARD_RATE;
    Ok(())
}

/// The units that an upload of `size_gb` gigabytes earns at `rate` units per
/// gigabyte and the given rarity multiplier.
pub open spec fn upload_reward(rate: u64, size_gb: u64, rarity_multiplier: u64) -> int {
    size_gb * rate * rarity_multiplier
}

/// Whether a step of the upload reward calculation, or one of the three
/// counters it adds to, leaves the unsigned 64-bit range.
pub open spec fn upload_reward_overflows(
    ctx: RewardUpload,
    size_gb: u64,
    rarity_multiplier: u64,
) -> bool {
    let rate = ctx.reward_pool.upload_reward_rate;
    let reward = upload_reward(rate, size_gb, rarity_multiplier);
    ||| size_gb * rate > u64::MAX
    ||| reward > u64::MAX
    ||| ctx.user_account.balance + reward > u64::MAX
    ||| ctx.user_account.total_uploaded + size_gb > u64::MAX
    ||| ctx.reward_pool.total_distributed + reward > u64::MAX
}

/// One upload reward step: the records afterwards, and the event or the
/// error.
pub open spec fn reward_upload_step(ctx: RewardUpload, size_gb: u64, rarity_multiplier: u64) -> (
    RewardUpload,
    Result<UploadRewardEvent, ErrorCode>,
) {
    let reward = upload_reward(ctx.reward_pool.upload_reward_rate, size_gb, rarity_multiplier);
    if upload_reward_overflows(ctx, size_gb, rarity_multiplier) {
        (ctx, Err(ErrorCode::MathOverflow))
    } else {
        (
            RewardUpload {
                reward_pool: ctx.reward_pool.distributed(reward),
                user_account: ctx.user_account.after_upload(size_gb, reward),
                user: ctx.user,
            },
            Ok(
                UploadRewardEvent {
                    user: ctx.user,
                    amount: reward as u64,
                    size_gb,
                    rarity_multiplier,
                },
            ),
        )
    }
}

/// Rewards an upload of `size_gb` gigabytes of data of the given rarity.
///
/// The reward goes to the balance and to the pool's distributed total, the
/// size to the uploaded volume.
pub fn reward_upload(ctx: &mut RewardUpload, size_gb: u64, rarity_multiplier: u64) -> (res: Result<
    UploadRewardEvent,
    ErrorCode,
>)
    ensures
        (*final(ctx), res) == reward_upload_step(*old(ctx), size_gb, rarity_multiplier),
        res is Err ==> *final(ctx) == *old(ctx),
{
    let base_reward = product(size_gb, ctx.reward_pool.upload_reward_rate)?;
    let total_reward = product(base_reward, rarity_multiplier)?;
    let balance = sum(ctx.user_account.balance, total_reward)?;
    let total_uploaded = sum(ctx.user_account.total_uploaded, size_gb)?;
    let total_distributed = sum(ctx.reward_pool.total_distributed, total_reward)?;

    ctx.user_account.balance = balance;
    ctx.user_account.total_uploaded = total_uploaded;
    ctx.reward_pool.total_distributed = total_distributed;
    Ok(UploadRewardEvent { user: ctx.user, amount: total_reward, size_gb, rarity_multiplier })
}

/// The units that `duration_hours` of node operation earn at `rate` units
/// per hour and the given uptime, rounded down.
pub open spec fn node_reward(rate: u64, duration_hours: u64, uptime_percentage: u8) -> int {
    scaled(duration_hours * rate, uptime_bonus(uptime_percentage))
}

/// Whether a step of the node reward calculation, or one of the three
/// counters it adds to, leaves the unsigned 64-bit range.
pub open spec fn node_reward_overflows(
    ctx: RewardNode,
    duration_hours: u64,
    uptime_percentage: u8,
) -> bool {
    let rate = ctx.reward_pool.node_reward_rate;
    let reward = node_reward(rate, duration_hours, uptime_percentage);
    ||| duration_hours * rate > u64::MAX
    ||| duration_hours * rate * uptime_bonus(uptime_percentage) > u64::MAX
    ||| ctx.user_account.balance + reward > u64::MAX
    ||| ctx.user_account.node_operation_hours + duration_hours > u64::MAX
    ||| ctx.reward_pool.total_distributed + reward > u64::MAX
}

/// Why a node reward is refused, if it is. The stake is looked at first, the
/// uptime second, the arithmetic last.
pub open spec fn node_reward_refusal(
    ctx: RewardNode,
    duration_hours: u64,
    uptime_percentage: u8,
) -> Option<ErrorCode> {
    if ctx.user_account.staked_amount < MIN_STAKE {
        Some(ErrorCode::InsufficientStake)
    } else if uptime_percentage < MIN_UPTIME {
        Some(ErrorCode::LowUptime)
    } else if node_reward_overflows(ctx, duration_hours, uptime_percentage) {
        Some(ErrorCode::MathOverflow)
    } else {
        None
    }
}

/// One node reward step: the records afterwards, and the event or the error.
pub open spec fn reward_super_node_step(
    ctx: RewardNode,
    duration_hours: u64,
    uptime_percentage: u8,
) -> (RewardNode, Result<NodeRewardEvent, ErrorCode>) {
    let reward = node_reward(ctx.reward_pool.node_reward_rate, duration_hours, uptime_percentage);
    match node_reward_refusal(ctx, duration_hours, uptime_percentage) {
        Some(error) => (ctx, Err(error)),
        None => (
            RewardNode {
                reward_pool: ctx.reward_pool.distributed(reward),
                user_account: ctx.user_account.after_node_operation(duration_hours, reward),
                user: ctx.user,
            },
            Ok(
                NodeRewardEvent {
                    user: ctx.user,
                    amount: reward as u64,
                    duration_hours,
                    uptime_percentage,
                },
            ),
        ),
    }
}

/// Rewards the operation of a super node for `duration_hours` at the reported
/// uptime.
///
/// Needs a stake of at least `MIN_STAKE` and an uptime of at least
/// `MIN_UPTIME` percent. The hourly rate is scaled by the uptime bonus and
/// rounded down; the reward goes to the balance and to the pool's distributed
/// total, the hours to the node operation counter.
pub fn reward_super_node(ctx: &mut RewardNode, duration_hours: u64, uptime_percentage: u8) -> (res:
    Result<NodeRewardEvent, ErrorCode>)
    ensures
        (*final(ctx), res) == reward_super_node_step(*old(ctx), duration_hours, uptime_percentage),
        res is Err ==> *final(ctx) == *old(ctx),
{
    if ctx.user_account.staked_amount < MIN_STAKE {
        return Err(ErrorCode::InsufficientStake);
    }
    if uptime_percentage < MIN_UPTIME {
        return Err(ErrorCode::LowUptime);
    }
    let uptime_bonus: u64 = if uptime_percentage >= 99 {
        120
    } else if uptime_percentage >= 95 {
        110
    } else {
        100
    };
    let base_reward = product(duration_hours, ctx.reward_pool.node_reward_rate)?;
    let final_reward = product(base_reward, uptime_bonus)? / 100;
    let balance = sum(ctx.user_account.balance, final_reward)?;
    let node_operation_hours = sum(ctx.user_account.node_operation_hours, duration_hours)?;
    let total_distributed = sum(ctx.reward_pool.total_distributed, final_reward)?;

    ctx.user_account.balance = balance;
    ctx.user_account.node_operation_hours = node_operation_hours;
    ctx.reward_pool.total_distributed = total_distributed;
    Ok(NodeRewardEvent { user: ctx.user, amount: final_reward, duration_hours, uptime_percentage })
}

/// The units that `duration_hours` of seeding earn at `rate` units per hour
/// for a file of the given popularity, rounded down.
pub open spec fn seed_reward(rate: u64, duration_hours: u64, file_popularity: u8) -> int {
    scaled(duration_hours * rate, popularity_bonus(file_popularity))
}

/// Whether a step of the seeding reward calculation, or one of the two
/// counters it adds to, leaves the unsigned 64-bit range.
pub open spec fn seed_reward_overflows(
    ctx: RewardSeed,
    duration_hours: u64,
    file_popularity: u8,
) -> bool {
    let rate = ctx.reward_pool.seed_reward_rate;
    let reward = seed_reward(rate, duration_hours, file_popularity);
    ||| duration_hours * rate > u64::MAX
    ||| duration_hours * rate * popularity_bonus(file_popularity) > u64::MAX
    ||| ctx.user_account.balance + reward > u64::MAX
    ||| ctx.user_account.seeding_hours + duration_hours > u64::MAX
}

/// One seeding reward step: the records afterwards, and the event or the
/// error. The pool is read for its rate and comes back as it was.
pub open spec fn reward_seeding_step(
    ctx: RewardSeed,
    duration_hours: u64,
    file_popularity: u8,
) -> (RewardSeed, Result<SeedRewardEvent, ErrorCode>) {
    let reward = seed_reward(ctx.reward_pool.seed_reward_rate, duration_hours, file_popularity);
    if seed_reward_overflows(ctx, duration_hours, file_popularity) {
        (ctx, Err(ErrorCode::MathOverflow))
    } else {
        (
            RewardSeed {
                reward_pool: ctx.reward_pool,
                user_account: ctx.user_account.after_seeding(duration_hours, reward),
                user: ctx.user,
            },
            Ok(
                SeedRewardEvent {
                    user: ctx.user,
                    amount: reward as u64,
                    duration_hours,
                    file_popularity,
                },
            ),
        )
    }
}

/// Rewards `duration_hours` of seeding a file of the given popularity rank.
///
/// The hourly rate is scaled by the popularity bonus and rounded down; the
/// reward goes to the balance, the hours to the seeding counter. The pool's
/// distributed total is not touched by seeding rewards.
pub fn reward_seeding(ctx: &mut RewardSeed, duration_hours: u64, file_popularity: u8) -> (res:
    Result<SeedRewardEvent, ErrorCode>)
    ensures
        (*final(ctx), res) == reward_seeding_step(*old(ctx), duration_hours, file_popularity),
        res is Err ==> *final(ctx) == *old(ctx),
{
    let popularity_multiplier: u64 = if file_popularity >= 80 {
        150
    } else if file_popularity >= 50 {
        125
    } else if file_popularity <= 20 {
        200
    } else {
        100
    };
    let base_reward = product(duration_hours, ctx.reward_pool.seed_reward_rate)?;
    let final_reward = product(base_reward, popularity_multiplier)? / 100;
    let balance = sum(ctx.user_account.balance, final_reward)?;
    let seeding_hours = sum(ctx.user_account.seeding_hours, duration_hours)?;

    ctx.user_account.balance = balance;
    ctx.user_account.seeding_hours = seeding_hours;
    Ok(SeedRewardEvent { user: ctx.user, amount: final_reward, duration_hours, file_popularity })
}

/// Why a spend is refused, if it is. The balance is looked at first, the
/// arithmetic second.
pub open spec fn consume_refusal(ctx: ConsumeTokens, amount: u64) -> Option<ErrorCode> {
    if ctx.user_account.balance < amount {
        Some(ErrorCode::InsufficientBalance)
    } else if ctx.user_account.total_consumed + amount > u64::MAX {
        Some(ErrorCode::MathOverflow)
    } else {
        None
    }
}

/// One spend step: the ledger afterwards, and the event or the error.
pub open spec fn consume_for_speed_step(ctx: ConsumeTokens, amount: u64) -> (
    ConsumeTokens,
    Result<SpeedBoostEvent, ErrorCode>,
) {
    match consume_refusal(ctx, amount) {
        Some(error) => (ctx, Err(error)),
        None => (
            ConsumeTokens { user_account: ctx.user_account.after_spending(amount), user: ctx.user },
            Ok(
                SpeedBoostEvent {
                    user: ctx.user,
                    amount,
                    new_balance: (ctx.user_account.balance - amount) as u64,
                },
            ),
        ),
    }
}

/// Spends `amount` units of the balance on download speed.
pub fn consume_for_speed(ctx: &mut ConsumeTokens, amount: u64) -> (res: Result<
    SpeedBoostEvent,
    ErrorCode,
>)
    ensures
        (*final(ctx), res) == consume_for_speed_step(*old(ctx), amount),
        res is Err ==> *final(ctx) == *old(ctx),
{
    if ctx.user_account.balance < amount {
        return Err(ErrorCode::InsufficientBalance);
    }
    let total_consumed = sum(ctx.user_account.total_consumed, amount)?;
    let new_balance = ctx.user_account.balance - amount;

    ctx.user_account.balance = new_balance;
    ctx.user_account.total_consumed = total_consumed;
    Ok(SpeedBoostEvent { user: ctx.user, amount, new_balance })
}

/// Why a stake deposit is refused, if it is. The floor is looked at first,
/// the balance second, the arithmetic last.
pub open spec fn stake_refusal(ctx: StakeTokens, amount: u64) -> Option<ErrorCode> {
    if amount < MIN_STAKE {
        Some(ErrorCode::InsufficientStake)
    } else if ctx.user_account.balance < amount {
        Some(ErrorCode::InsufficientBalance)
    } else if ctx.user_account.staked_amount + amount > u64::MAX {
        Some(ErrorCode::MathOverflow)
    } else {
        None
    }
}

/// One stake step: the ledger afterwards, and the event or the error.
pub open spec fn stake_for_node_step(ctx: StakeTokens, amount: u64) -> (
    StakeTokens,
    Result<StakeEvent, ErrorCode>,
) {
    match stake_refusal(ctx, amount) {
        Some(error) => (ctx, Err(error)),
        None => (
            StakeTokens { user_account: ctx.user_account.after_staking(amount), user: ctx.user },
            Ok(
                StakeEvent {
                    user: ctx.user,
                    amount,
                    total_staked: (ctx.user_account.staked_amount + amount) as u64,
                },
            ),
        ),
    }
}

/// Moves `amount` units from the balance into the stake.
///
/// A deposit is at least `MIN_STAKE` and at most the balance.
pub fn stake_for_node(ctx: &mut StakeTokens, amount: u64) -> (res: Result<StakeEvent, ErrorCode>)
    ensures
        (*final(ctx), res) == stake_for_node_step(*old(ctx), amount),
        res is Err ==> *final(ctx) == *old(ctx),
{
    if amount < MIN_STAKE {
        return Err(ErrorCode::InsufficientStake);
    }
    if ctx.user_account.balance < amount {
        return Err(ErrorCode::InsufficientBalance);
    }
    let staked_amount = sum(ctx.user_account.staked_amount, amount)?;

    ctx.user_account.balance = ctx.user_account.balance - amount;
    ctx.user_account.staked_amount = staked_amount;
    Ok(StakeEvent { user: ctx.user, amount, total_staked: staked_amount })
}

/// Why a release of stake is refused, if it is. The stake is looked at first,
/// the arithmetic second.
pub open spec fn unstake_refusal(ctx: UnstakeTokens, amount: u64) -> Option<ErrorCode> {
    if ctx.user_account.staked_amount < amount {
        Some(ErrorCode::InsufficientStake)
    } else if ctx.user_account.balance + amount > u64::MAX {
        Some(ErrorCode::MathOverflow)
    } else {
        None
    }
}

/// One unstake step: the ledger afterwards, and the event or the error.
pub open spec fn unstake_tokens_step(ctx: UnstakeTokens, amount: u64) -> (
    UnstakeTokens,
    Result<UnstakeEvent, ErrorCode>,
) {
    match unstake_refusal(ctx, amount) {
        Some(error) => (ctx, Err(error)),
        None => (
            UnstakeTokens {
                user_account: ctx.user_account.after_unstaking(amount),
                user: ctx.user,
            },
            Ok(
                UnstakeEvent {
                    user: ctx.user,
                    amount,
                    remaining_staked: (ctx.user_account.staked_amount - amount) as u64,
                },
            ),
        ),
    }
}

/// Moves `amount` units from the stake back into the balance. Any amount up
/// to the whole stake can be released.
pub fn unstake_tokens(ctx: &mut UnstakeTokens, amount: u64) -> (res: Result<
    UnstakeEvent,
    ErrorCode,
>)
    ensures
        (*final(ctx), res) == unstake_tokens_step(*old(ctx), amount),
        res is Err ==> *final(ctx) == *old(ctx),
{
    if ctx.user_account.staked_amount < amount {
        return Err(ErrorCode::InsufficientStake);
    }
    let balance = sum(ctx.user_account.balance, amount)?;
    let remaining_staked = ctx.user_account.staked_amount - amount;

    ctx.user_account.staked_amount = remaining_staked;
    ctx.user_account.balance = balance;
    Ok(UnstakeEvent { user: ctx.user, amount, remaining_staked })
}

} // verus!
