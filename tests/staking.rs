use agrotm::address::Address;
use agrotm::error::{ErrorCode, ErrorKind};
use agrotm::staking::{
    claim_rewards, initialize, pause, settle, stake, unpause, unstake, Holding, StakingPool,
    TokenTransfer, UserStake,
};

const YEAR: i64 = 31_536_000;

fn addr(n: u8) -> Address {
    Address::new([n; 32])
}

fn pool_at(now: i64) -> StakingPool {
    initialize(&None, addr(1), 255, now).unwrap()
}

fn same_pool(a: &StakingPool, b: &StakingPool) -> bool {
    a.authority.same_as(&b.authority)
        && a.bump == b.bump
        && a.total_staked == b.total_staked
        && a.reward_rate == b.reward_rate
        && a.last_update_time == b.last_update_time
        && a.is_paused == b.is_paused
}

fn same_user(a: &UserStake, b: &UserStake) -> bool {
    a.user.same_as(&b.user)
        && a.amount == b.amount
        && a.pending_rewards == b.pending_rewards
        && a.last_stake_time == b.last_stake_time
        && a.last_update_time == b.last_update_time
        && a.last_claim_time == b.last_claim_time
}

#[test]
fn test_initialize_pool() {
    let authority = addr(7);
    let pool = initialize(&None, authority, 254, 1_000_000_000).unwrap();
    assert!(pool.authority.same_as(&authority));
    assert_eq!(pool.bump, 254);
    assert_eq!(pool.total_staked, 0);
    assert_eq!(pool.reward_rate, 1000);
    assert_eq!(pool.last_update_time, 1_000_000_000);
    assert!(!pool.is_paused);
}

#[test]
fn initialize_twice_fails() {
    let pool = pool_at(10);
    let again = initialize(&Some(pool), addr(9), 1, 20);
    assert_eq!(again.unwrap_err(), ErrorCode::AlreadyInitialized);
}

#[test]
fn test_stake_tokens() {
    let user = addr(3);
    let mut pool = pool_at(10);
    let mut user_stake = UserStake::new(user);
    let stake_amount = 100_000;
    let (transfer, event) = stake(&mut pool, &mut user_stake, stake_amount, 100).unwrap();
    assert!(user_stake.user.same_as(&user));
    assert_eq!(user_stake.amount, stake_amount);
    assert_eq!(pool.total_staked, stake_amount);
    assert_eq!(user_stake.last_stake_time, 100);
    assert_eq!(
        transfer,
        TokenTransfer { from: Holding::UserTokens, to: Holding::PoolTokens, amount: stake_amount }
    );
    assert!(event.user.same_as(&user));
    assert_eq!(event.amount, stake_amount);
    assert_eq!(event.total_staked, stake_amount);
}

#[test]
fn stake_while_paused_changes_nothing() {
    let mut pool = pool_at(10);
    pause(&mut pool, &addr(1), 11).unwrap();
    let mut user_stake = UserStake::new(addr(3));
    let pool_before = pool;
    let user_before = user_stake;
    let err = stake(&mut pool, &mut user_stake, 100_000, 50).unwrap_err();
    assert_eq!(err, ErrorCode::PoolPaused);
    assert_eq!(err.kind(), ErrorKind::State);
    assert!(same_pool(&pool, &pool_before));
    assert!(same_user(&user_stake, &user_before));
}

#[test]
fn stake_zero_is_invalid() {
    let mut pool = pool_at(10);
    let mut user_stake = UserStake::new(addr(3));
    let err = stake(&mut pool, &mut user_stake, 0, 50).unwrap_err();
    assert_eq!(err, ErrorCode::InvalidAmount);
    assert_eq!(err.kind(), ErrorKind::Validation);
}

#[test]
fn stake_overflow_of_the_total() {
    let mut pool = pool_at(10);
    let mut user_stake = UserStake::new(addr(3));
    stake(&mut pool, &mut user_stake, u64::MAX, 20).unwrap();
    let before = user_stake;
    let err = stake(&mut pool, &mut user_stake, 1, 20).unwrap_err();
    assert_eq!(err, ErrorCode::Overflow);
    assert_eq!(err.kind(), ErrorKind::Arithmetic);
    assert!(same_user(&user_stake, &before));
}

#[test]
fn unstake_more_than_staked_fails() {
    let mut pool = pool_at(0);
    let mut user_stake = UserStake::new(addr(3));
    stake(&mut pool, &mut user_stake, 10, 0).unwrap();
    let pool_before = pool;
    let user_before = user_stake;
    let err = unstake(&mut pool, &mut user_stake, 50, 100).unwrap_err();
    assert_eq!(err, ErrorCode::InsufficientStake);
    assert_eq!(err.kind(), ErrorKind::BusinessRule);
    assert!(same_pool(&pool, &pool_before));
    assert!(same_user(&user_stake, &user_before));
}

#[test]
fn unstake_settles_on_the_old_balance() {
    let mut pool = pool_at(0);
    let mut user_stake = UserStake::new(addr(3));
    stake(&mut pool, &mut user_stake, 1_000_000, 0).unwrap();
    let (transfer, event) = unstake(&mut pool, &mut user_stake, 400_000, YEAR).unwrap();
    assert_eq!(
        transfer,
        TokenTransfer { from: Holding::PoolTokens, to: Holding::UserTokens, amount: 400_000 }
    );
    assert_eq!(event.remaining_staked, 600_000);
    assert_eq!(user_stake.amount, 600_000);
    assert_eq!(pool.total_staked, 600_000);
    assert_eq!(user_stake.pending_rewards, 100_000);
    assert_eq!(user_stake.last_update_time, YEAR);
    assert_eq!(pool.last_update_time, YEAR);
}

#[test]
fn unstake_below_the_pool_total_underflows() {
    let mut pool = pool_at(0);
    let mut user_stake = UserStake::new(addr(3));
    stake(&mut pool, &mut user_stake, 100, 0).unwrap();
    pool.total_staked = 10;
    let err = unstake(&mut pool, &mut user_stake, 50, 0).unwrap_err();
    assert_eq!(err, ErrorCode::Underflow);
    assert_eq!(pool.total_staked, 10);
    assert_eq!(user_stake.amount, 100);
}

#[test]
fn claim_pays_everything_accrued() {
    let mut pool = pool_at(0);
    let mut user_stake = UserStake::new(addr(3));
    stake(&mut pool, &mut user_stake, 1_000_000, 0).unwrap();
    let (transfer, event) = claim_rewards(&mut pool, &mut user_stake, YEAR).unwrap();
    assert_eq!(
        transfer,
        TokenTransfer { from: Holding::RewardVault, to: Holding::UserRewards, amount: 100_000 }
    );
    assert_eq!(event.amount, 100_000);
    assert_eq!(user_stake.pending_rewards, 0);
    assert_eq!(user_stake.last_claim_time, YEAR);
    assert_eq!(user_stake.amount, 1_000_000);
}

#[test]
fn claim_with_nothing_accrued_fails() {
    let mut pool = pool_at(0);
    let mut user_stake = UserStake::new(addr(3));
    let err = claim_rewards(&mut pool, &mut user_stake, 100).unwrap_err();
    assert_eq!(err, ErrorCode::NoRewards);
    assert_eq!(err.kind(), ErrorKind::BusinessRule);
    assert_eq!(user_stake.last_update_time, 0);
}

#[test]
fn claim_while_paused_fails() {
    let mut pool = pool_at(0);
    let mut user_stake = UserStake::new(addr(3));
    stake(&mut pool, &mut user_stake, 1_000_000, 0).unwrap();
    pause(&mut pool, &addr(1), 5).unwrap();
    let err = claim_rewards(&mut pool, &mut user_stake, YEAR).unwrap_err();
    assert_eq!(err, ErrorCode::PoolPaused);
    assert_eq!(user_stake.pending_rewards, 0);
}

#[test]
fn settle_twice_at_the_same_time_accrues_once() {
    let mut pool = pool_at(0);
    let mut user_stake = UserStake::new(addr(3));
    stake(&mut pool, &mut user_stake, 1_000_000, 0).unwrap();
    settle(&mut pool, &mut user_stake, YEAR).unwrap();
    assert_eq!(user_stake.pending_rewards, 100_000);
    let pool_once = pool;
    let user_once = user_stake;
    settle(&mut pool, &mut user_stake, YEAR).unwrap();
    assert!(same_pool(&pool, &pool_once));
    assert!(same_user(&user_stake, &user_once));
}

#[test]
fn settle_never_moves_the_checkpoint_back() {
    let mut pool = pool_at(0);
    let mut user_stake = UserStake::new(addr(3));
    stake(&mut pool, &mut user_stake, 1_000_000, 500).unwrap();
    settle(&mut pool, &mut user_stake, 100).unwrap();
    assert_eq!(user_stake.last_update_time, 500);
    assert_eq!(user_stake.pending_rewards, 0);

    let mut empty = UserStake::new(addr(4));
    settle(&mut pool, &mut empty, 300).unwrap();
    assert_eq!(empty.last_update_time, 300);
    settle(&mut pool, &mut empty, 200).unwrap();
    assert_eq!(empty.last_update_time, 300);
}

#[test]
fn settle_on_an_empty_position_accrues_nothing() {
    let mut pool = pool_at(0);
    let mut user_stake = UserStake::new(addr(3));
    settle(&mut pool, &mut user_stake, YEAR).unwrap();
    assert_eq!(user_stake.pending_rewards, 0);
    assert_eq!(user_stake.last_update_time, YEAR);
    assert_eq!(pool.last_update_time, 0);
}

#[test]
fn settle_overflow_of_pending_rewards() {
    let mut pool = pool_at(0);
    let mut user_stake = UserStake::new(addr(3));
    stake(&mut pool, &mut user_stake, 1_000_000, 0).unwrap();
    user_stake.pending_rewards = u64::MAX;
    let err = settle(&mut pool, &mut user_stake, YEAR).unwrap_err();
    assert_eq!(err, ErrorCode::Overflow);
    assert_eq!(user_stake.last_update_time, 0);
}

#[test]
fn single_participant_total_matches_the_stake() {
    let mut pool = pool_at(0);
    let mut user_stake = UserStake::new(addr(3));
    let steps: [(bool, u64, i64); 7] = [
        (true, 500, 10),
        (true, 250, 20),
        (false, 100, 30),
        (false, 10_000, 40),
        (true, 0, 50),
        (false, 650, 60),
        (true, 42, 70),
    ];
    for (is_stake, amount, now) in steps {
        if is_stake {
            let _ = stake(&mut pool, &mut user_stake, amount, now);
        } else {
            let _ = unstake(&mut pool, &mut user_stake, amount, now);
        }
        assert_eq!(pool.total_staked, user_stake.amount);
    }
    assert_eq!(user_stake.amount, 42);
}

#[test]
fn pause_and_unpause_need_the_authority() {
    let mut pool = pool_at(0);
    let err = pause(&mut pool, &addr(2), 5).unwrap_err();
    assert_eq!(err, ErrorCode::Unauthorized);
    assert_eq!(err.kind(), ErrorKind::Authorization);
    assert!(!pool.is_paused);
    let ev = pause(&mut pool, &addr(1), 5).unwrap();
    assert_eq!(ev.timestamp, 5);
    assert!(pool.is_paused);
    assert_eq!(unpause(&mut pool, &addr(2), 6).unwrap_err(), ErrorCode::Unauthorized);
    assert!(pool.is_paused);
    let ev = unpause(&mut pool, &addr(1), 6).unwrap();
    assert_eq!(ev.timestamp, 6);
    assert!(!pool.is_paused);
}
