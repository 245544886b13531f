use anchor_lang::prelude::Pubkey;
use thunderfuel::accounts::{ConsumeTokens, RewardUpload, StakeTokens, UnstakeTokens};
use thunderfuel::errors::ErrorCode;
use thunderfuel::events::{SpeedBoostEvent, StakeEvent, UnstakeEvent};
use thunderfuel::rewards::{consume_for_speed, reward_upload, stake_for_node, unstake_tokens};
use thunderfuel::state::{RewardPool, UserAccount};

const TEN_THOUSAND_TOKENS: u64 = 10_000_000_000_000;

fn key(byte: u8) -> Pubkey {
    Pubkey::new_from_array([byte; 32])
}

fn ledger_with(balance: u64, staked_amount: u64) -> UserAccount {
    UserAccount {
        owner: key(2),
        balance,
        staked_amount,
        total_uploaded: 5,
        total_consumed: 6,
        seeding_hours: 7,
        node_operation_hours: 8,
        reputation_score: 900,
    }
}

#[test]
fn consume_debits_balance_and_counts_consumption() {
    let before = ledger_with(1_000, 0);
    let mut ctx = ConsumeTokens { user_account: before, user: key(3) };
    let event = consume_for_speed(&mut ctx, 400).unwrap();
    assert_eq!(event, SpeedBoostEvent { user: key(3), amount: 400, new_balance: 600 });
    assert_eq!(ctx.user_account, UserAccount { balance: 600, total_consumed: 406, ..before });
}

#[test]
fn consume_of_the_whole_balance_leaves_zero() {
    let mut ctx = ConsumeTokens { user_account: ledger_with(1_000, 0), user: key(3) };
    let event = consume_for_speed(&mut ctx, 1_000).unwrap();
    assert_eq!(event.new_balance, 0);
    assert_eq!(ctx.user_account.balance, 0);
    assert_eq!(ctx.user_account.total_consumed, 1_006);
}

#[test]
fn consume_of_nothing_changes_nothing() {
    let before = ConsumeTokens { user_account: ledger_with(0, 0), user: key(3) };
    let mut ctx = before;
    let event = consume_for_speed(&mut ctx, 0).unwrap();
    assert_eq!(event, SpeedBoostEvent { user: key(3), amount: 0, new_balance: 0 });
    assert_eq!(ctx, before);
}

#[test]
fn consume_beyond_balance_is_refused() {
    let before = ConsumeTokens { user_account: ledger_with(1_000, 50_000), user: key(3) };
    let mut ctx = before;
    assert_eq!(consume_for_speed(&mut ctx, 1_001), Err(ErrorCode::InsufficientBalance));
    assert_eq!(ctx, before);
    assert_eq!(consume_for_speed(&mut ctx, u64::MAX), Err(ErrorCode::InsufficientBalance));
    assert_eq!(ctx, before);
}

#[test]
fn consume_never_pays_from_the_stake() {
    let before = ConsumeTokens {
        user_account: ledger_with(10, TEN_THOUSAND_TOKENS),
        user: key(3),
    };
    let mut ctx = before;
    assert_eq!(consume_for_speed(&mut ctx, 11), Err(ErrorCode::InsufficientBalance));
    assert_eq!(ctx, before);
    assert!(consume_for_speed(&mut ctx, 10).is_ok());
    assert_eq!(ctx.user_account.staked_amount, TEN_THOUSAND_TOKENS);
}

#[test]
fn consume_overflow_in_consumed_total_changes_nothing() {
    let before = ConsumeTokens {
        user_account: UserAccount { total_consumed: u64::MAX - 3, ..ledger_with(1_000, 0) },
        user: key(3),
    };
    let mut ctx = before;
    assert_eq!(consume_for_speed(&mut ctx, 4), Err(ErrorCode::MathOverflow));
    assert_eq!(ctx, before);
    assert!(consume_for_speed(&mut ctx, 3).is_ok());
    assert_eq!(ctx.user_account.total_consumed, u64::MAX);
    assert_eq!(ctx.user_account.balance, 997);
}

#[test]
fn stake_moves_balance_into_stake() {
    let before = ledger_with(25_000_000_000_000, 1_000);
    let mut ctx = StakeTokens { user_account: before, user: key(3) };
    let event = stake_for_node(&mut ctx, TEN_THOUSAND_TOKENS).unwrap();
    assert_eq!(
        event,
        StakeEvent { user: key(3), amount: TEN_THOUSAND_TOKENS, total_staked: 10_000_000_001_000 }
    );
    assert_eq!(
        ctx.user_account,
        UserAccount { balance: 15_000_000_000_000, staked_amount: 10_000_000_001_000, ..before }
    );
}

#[test]
fn stake_below_the_floor_is_refused() {
    let before = StakeTokens { user_account: ledger_with(u64::MAX, 0), user: key(3) };
    let mut ctx = before;
    assert_eq!(stake_for_node(&mut ctx, TEN_THOUSAND_TOKENS - 1), Err(ErrorCode::InsufficientStake));
    assert_eq!(ctx, before);
    assert_eq!(stake_for_node(&mut ctx, 0), Err(ErrorCode::InsufficientStake));
    assert_eq!(ctx, before);
}

#[test]
fn stake_below_the_floor_is_refused_before_the_balance_is_looked_at() {
    let before = StakeTokens { user_account: ledger_with(0, 0), user: key(3) };
    let mut ctx = before;
    assert_eq!(stake_for_node(&mut ctx, 1), Err(ErrorCode::InsufficientStake));
    assert_eq!(ctx, before);
}

#[test]
fn stake_beyond_balance_is_refused() {
    let before = StakeTokens {
        user_account: ledger_with(TEN_THOUSAND_TOKENS - 1, 0),
        user: key(3),
    };
    let mut ctx = before;
    assert_eq!(stake_for_node(&mut ctx, TEN_THOUSAND_TOKENS), Err(ErrorCode::InsufficientBalance));
    assert_eq!(ctx, before);
}

#[test]
fn stake_overflow_in_stake_changes_nothing() {
    let before = StakeTokens {
        user_account: ledger_with(TEN_THOUSAND_TOKENS, u64::MAX - TEN_THOUSAND_TOKENS + 1),
        user: key(3),
    };
    let mut ctx = before;
    assert_eq!(stake_for_node(&mut ctx, TEN_THOUSAND_TOKENS), Err(ErrorCode::MathOverflow));
    assert_eq!(ctx, before);
}

#[test]
fn unstake_moves_stake_back_into_balance() {
    let before = ledger_with(5, TEN_THOUSAND_TOKENS);
    let mut ctx = UnstakeTokens { user_account: before, user: key(3) };
    let event = unstake_tokens(&mut ctx, 4_000).unwrap();
    assert_eq!(
        event,
        UnstakeEvent { user: key(3), amount: 4_000, remaining_staked: 9_999_999_996_000 }
    );
    assert_eq!(
        ctx.user_account,
        UserAccount { balance: 4_005, staked_amount: 9_999_999_996_000, ..before }
    );
}

#[test]
fn unstake_has_no_floor() {
    let mut ctx = UnstakeTokens { user_account: ledger_with(0, 3), user: key(3) };
    assert!(unstake_tokens(&mut ctx, 1).is_ok());
    assert!(unstake_tokens(&mut ctx, 0).is_ok());
    assert!(unstake_tokens(&mut ctx, 2).is_ok());
    assert_eq!(ctx.user_account.balance, 3);
    assert_eq!(ctx.user_account.staked_amount, 0);
}

#[test]
fn unstake_beyond_stake_is_refused() {
    let before = UnstakeTokens { user_account: ledger_with(1_000_000, 10), user: key(3) };
    let mut ctx = before;
    assert_eq!(unstake_tokens(&mut ctx, 11), Err(ErrorCode::InsufficientStake));
    assert_eq!(ctx, before);
}

#[test]
fn unstake_overflow_in_balance_changes_nothing() {
    let before = UnstakeTokens { user_account: ledger_with(u64::MAX - 1, 10), user: key(3) };
    let mut ctx = before;
    assert_eq!(unstake_tokens(&mut ctx, 2), Err(ErrorCode::MathOverflow));
    assert_eq!(ctx, before);
    assert!(unstake_tokens(&mut ctx, 1).is_ok());
    assert_eq!(ctx.user_account.balance, u64::MAX);
    assert_eq!(ctx.user_account.staked_amount, 9);
}

#[test]
fn stake_then_unstake_restores_the_ledger() {
    let before = ledger_with(30_000_000_000_000, 77);
    let mut stake = StakeTokens { user_account: before, user: key(3) };
    assert!(stake_for_node(&mut stake, 20_000_000_000_000).is_ok());
    assert_ne!(stake.user_account, before);
    let mut unstake = UnstakeTokens { user_account: stake.user_account, user: key(3) };
    assert!(unstake_tokens(&mut unstake, 20_000_000_000_000).is_ok());
    assert_eq!(unstake.user_account.balance, before.balance);
    assert_eq!(unstake.user_account.staked_amount, before.staked_amount);
    assert_eq!(unstake.user_account, before);
}

#[test]
fn stake_and_unstake_conserve_what_is_held() {
    let before = ledger_with(30_000_000_000_000, 77);
    let held = before.balance + before.staked_amount;
    let mut stake = StakeTokens { user_account: before, user: key(3) };
    assert!(stake_for_node(&mut stake, 12_345_678_901_234).is_ok());
    assert_eq!(stake.user_account.balance + stake.user_account.staked_amount, held);
    let mut unstake = UnstakeTokens { user_account: stake.user_account, user: key(3) };
    assert!(unstake_tokens(&mut unstake, 999).is_ok());
    assert_eq!(unstake.user_account.balance + unstake.user_account.staked_amount, held);
}

#[test]
fn error_messages_name_the_refusal() {
    assert_eq!(ErrorCode::MathOverflow.message(), "Mathematical operation overflow");
    assert_eq!(ErrorCode::InsufficientBalance.message(), "Insufficient balance");
    assert_eq!(ErrorCode::InsufficientStake.message(), "Insufficient stake amount");
    assert_eq!(ErrorCode::LowUptime.message(), "Node uptime too low");
}

#[test]
fn staking_waits_for_enough_balance() {
    let pool = RewardPool {
        authority: key(1),
        total_rewards: 0,
        total_distributed: 0,
        upload_reward_rate: 2_000_000_000,
        node_reward_rate: 5_000_000_000,
        seed_reward_rate: 100_000_000,
    };
    let empty = UserAccount {
        owner: key(2),
        balance: 0,
        staked_amount: 0,
        total_uploaded: 0,
        total_consumed: 0,
        seeding_hours: 0,
        node_operation_hours: 0,
        reputation_score: 0,
    };

    let mut stake = StakeTokens { user_account: empty, user: key(2) };
    assert_eq!(stake_for_node(&mut stake, TEN_THOUSAND_TOKENS), Err(ErrorCode::InsufficientBalance));
    assert_eq!(stake.user_account, empty);

    let mut upload = RewardUpload { reward_pool: pool, user_account: stake.user_account, user: key(2) };
    assert!(reward_upload(&mut upload, 10, 1).is_ok());
    assert_eq!(upload.user_account.balance, 20_000_000_000);

    let mut stake = StakeTokens { user_account: upload.user_account, user: key(2) };
    assert_eq!(stake_for_node(&mut stake, TEN_THOUSAND_TOKENS), Err(ErrorCode::InsufficientBalance));
    assert_eq!(stake.user_account, upload.user_account);
    assert_eq!(stake.user_account.balance, 20_000_000_000);
    assert_eq!(stake.user_account.staked_amount, 0);
}
