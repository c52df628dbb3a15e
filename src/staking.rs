use vstd::prelude::*;

use crate::address::{authorize, Address};
use crate::error::ErrorCode;
use crate::reward::{accrued_yield, yield_fits, yield_of, DEFAULT_REWARD_RATE};

verus! {

/// The shared pool that participants stake into.
#[derive(Clone, Copy, Debug)]
pub struct StakingPool {
    pub authority: Address,
    pub bump: u8,
    pub total_staked: u64,
    /// Basis points a year.
    pub reward_rate: u64,
    pub last_update_time: i64,
    pub is_paused: bool,
}

/// One participant's position in the pool.
#[derive(Clone, Copy, Debug)]
pub struct UserStake {
    pub user: Address,
    pub amount: u64,
    pub pending_rewards: u64,
    pub last_stake_time: i64,
    /// The last accrual checkpoint; it never moves backward.
    pub last_update_time: i64,
    pub last_claim_time: i64,
}

impl UserStake {
    /// The record a participant gets on first stake: nothing staked, nothing
    /// owed.
    pub fn new(user: Address) -> (r: UserStake)
        ensures
            r == (UserStake {
                user,
                amount: 0,
                pending_rewards: 0,
                last_stake_time: 0,
                last_update_time: 0,
                last_claim_time: 0,
            }),
    {
        UserStake {
            user,
            amount: 0,
            pending_rewards: 0,
            last_stake_time: 0,
            last_update_time: 0,
            last_claim_time: 0,
        }
    }
}

// ---------------------------------------------------------------------------
// Accrual checkpoint

/// Seconds since the position's last checkpoint.
pub open spec fn elapsed_since(us: UserStake, now: i64) -> int {
    now - us.last_update_time
}

/// The checkpoint has yield to add: a nonzero position and a clock that moved
/// forward.
pub open spec fn accrues(us: UserStake, now: i64) -> bool {
    us.amount > 0 && elapsed_since(us, now) > 0
}

/// What the checkpoint adds to the pending rewards.
pub open spec fn accrual(pool: StakingPool, us: UserStake, now: i64) -> int {
    yield_of(us.amount as int, pool.reward_rate as int, elapsed_since(us, now))
}

/// The checkpoint cannot be computed in the record's integer types.
pub open spec fn settle_overflows(pool: StakingPool, us: UserStake, now: i64) -> bool {
    accrues(us, now) && (elapsed_since(us, now) > i64::MAX || !yield_fits(
        us.amount as int,
        pool.reward_rate as int,
        elapsed_since(us, now),
    ) || us.pending_rewards + accrual(pool, us, now) > u64::MAX)
}

/// The position after a checkpoint at `now`.
pub open spec fn settled_user(pool: StakingPool, us: UserStake, now: i64) -> UserStake {
    if us.amount == 0 {
        if now > us.last_update_time {
            UserStake { last_update_time: now, ..us }
        } else {
            us
        }
    } else if accrues(us, now) {
        UserStake {
            pending_rewards: (us.pending_rewards + accrual(pool, us, now)) as u64,
            last_update_time: now,
            ..us
        }
    } else {
        us
    }
}

/// The pool after a checkpoint of `us` at `now`.
pub open spec fn settled_pool(pool: StakingPool, us: UserStake, now: i64) -> StakingPool {
    if accrues(us, now) {
        StakingPool { last_update_time: now, ..pool }
    } else {
        pool
    }
}

/// Settles the yield owed on the position up to `now`, before any change to
/// its balance. A clock that did not move forward settles nothing.
pub fn settle(pool: &mut StakingPool, user_stake: &mut UserStake, now: i64) -> (r: Result<
    (),
    ErrorCode,
>)
    ensures
        r is Ok <==> !settle_overflows(*old(pool), *old(user_stake), now),
        r is Ok ==> *final(pool) == settled_pool(*old(pool), *old(user_stake), now)
            && *final(user_stake) == settled_user(*old(pool), *old(user_stake), now),
        r is Err ==> r == Err::<(), ErrorCode>(ErrorCode::Overflow) && *final(pool) == *old(pool)
            && *final(user_stake) == *old(user_stake),
        final(user_stake).last_update_time >= old(user_stake).last_update_time,
        final(user_stake).pending_rewards >= old(user_stake).pending_rewards,
{
    if user_stake.amount == 0 {
        if now > user_stake.last_update_time {
            user_stake.last_update_time = now;
        }
        return Ok(());
    }
    if now <= user_stake.last_update_time {
        return Ok(());
    }
    let elapsed: i128 = now as i128 - user_stake.last_update_time as i128;
    if elapsed > i64::MAX as i128 {
        return Err(ErrorCode::Overflow);
    }
    let owed = match accrued_yield(user_stake.amount, pool.reward_rate, elapsed as i64) {
        Ok(y) => y,
        Err(e) => return Err(e),
    };
    match user_stake.pending_rewards.checked_add(owed) {
        None => Err(ErrorCode::Overflow),
        Some(pending) => {
            user_stake.pending_rewards = pending;
            user_stake.last_update_time = now;
            pool.last_update_time = now;
            Ok(())
        },
    }
}

/// A second checkpoint at the same instant finds no elapsed time and changes
/// nothing.
pub proof fn lemma_settle_idempotent(pool: StakingPool, us: UserStake, now: i64)
    requires
        !settle_overflows(pool, us, now),
    ensures
        ({
            let pool_once = settled_pool(pool, us, now);
            let user_once = settled_user(pool, us, now);
            &&& !settle_overflows(pool_once, user_once, now)
            &&& settled_pool(pool_once, user_once, now) == pool_once
            &&& settled_user(pool_once, user_once, now) == user_once
        }),
{
}

// ---------------------------------------------------------------------------
// Ledger calls and events

/// A token holding that a staking operation moves value between.
#[derive(Clone, Copy, Debug, PartialEq, Eq, Structural)]
pub enum Holding {
    /// The participant's token account.
    UserTokens,
    /// The pool's token account.
    PoolTokens,
    /// The account that rewards are paid from.
    RewardVault,
    /// The participant's account that rewards are paid into.
    UserRewards,
}

/// A transfer that the host performs once an operation has succeeded. If it
/// fails, the host discards the operation's new records.
#[derive(Clone, Copy, Debug, PartialEq, Eq, Structural)]
pub struct TokenTransfer {
    pub from: Holding,
    pub to: Holding,
    pub amount: u64,
}

#[derive(Clone, Copy, Debug)]
pub struct StakeEvent {
    pub user: Address,
    pub amount: u64,
    pub total_staked: u64,
}

#[derive(Clone, Copy, Debug)]
pub struct UnstakeEvent {
    pub user: Address,
    pub amount: u64,
    pub remaining_staked: u64,
}

#[derive(Clone, Copy, Debug)]
pub struct ClaimRewardsEvent {
    pub user: Address,
    pub amount: u64,
}

#[derive(Clone, Copy, Debug)]
pub struct PauseEvent {
    pub timestamp: i64,
}

#[derive(Clone, Copy, Debug)]
pub struct UnpauseEvent {
    pub timestamp: i64,
}

// ---------------------------------------------------------------------------
// Pool lifecycle

/// The pool as it is created.
pub open spec fn fresh_pool(authority: Address, bump: u8, now: i64) -> StakingPool {
    StakingPool {
        authority,
        bump,
        total_staked: 0,
        reward_rate: DEFAULT_REWARD_RATE,
        last_update_time: now,
        is_paused: false,
    }
}

/// Creates the pool. A pool is created once: with a record already in
/// place this fails and the record stays as it is.
pub fn initialize(existing: &Option<StakingPool>, authority: Address, bump: u8, now: i64) -> (r:
    Result<StakingPool, ErrorCode>)
    ensures
        r is Err <==> existing is Some,
        r is Err ==> r == Err::<StakingPool, ErrorCode>(ErrorCode::AlreadyInitialized),
        r matches Ok(p) ==> p == fresh_pool(authority, bump, now),
{
    if existing.is_some() {
        return Err(ErrorCode::AlreadyInitialized);
    }
    Ok(
        StakingPool {
            authority,
            bump,
            total_staked: 0,
            reward_rate: DEFAULT_REWARD_RATE,
            last_update_time: now,
            is_paused: false,
        },
    )
}

// ---------------------------------------------------------------------------
// Stake

/// The first check that a stake fails, if any.
pub open spec fn stake_error(pool: StakingPool, us: UserStake, amount: u64, now: i64) -> Option<
    ErrorCode,
> {
    if pool.is_paused {
        Some(ErrorCode::PoolPaused)
    } else if amount == 0 {
        Some(ErrorCode::InvalidAmount)
    } else if settle_overflows(pool, us, now) {
        Some(ErrorCode::Overflow)
    } else if pool.total_staked + amount > u64::MAX || us.amount + amount > u64::MAX {
        Some(ErrorCode::Overflow)
    } else {
        None
    }
}

pub open spec fn staked_pool(pool: StakingPool, us: UserStake, amount: u64, now: i64) -> StakingPool {
    let p = settled_pool(pool, us, now);
    StakingPool { total_staked: (p.total_staked + amount) as u64, ..p }
}

pub open spec fn staked_user(pool: StakingPool, us: UserStake, amount: u64, now: i64) -> UserStake {
    let u = settled_user(pool, us, now);
    UserStake { amount: (u.amount + amount) as u64, last_stake_time: now, ..u }
}

/// Adds `amount` to the participant's position, after settling the yield on
/// the balance it had so far. The tokens move from the participant to the
/// pool by the returned transfer.
pub fn stake(pool: &mut StakingPool, user_stake: &mut UserStake, amount: u64, now: i64) -> (r:
    Result<(TokenTransfer, StakeEvent), ErrorCode>)
    ensures
        r is Err <==> stake_error(*old(pool), *old(user_stake), amount, now) is Some,
        r matches Err(e) ==> Some(e) == stake_error(*old(pool), *old(user_stake), amount, now)
            && *final(pool) == *old(pool) && *final(user_stake) == *old(user_stake),
        r matches Ok((t, ev)) ==> {
            &&& *final(pool) == staked_pool(*old(pool), *old(user_stake), amount, now)
            &&& *final(user_stake) == staked_user(*old(pool), *old(user_stake), amount, now)
            &&& t == (TokenTransfer { from: Holding::UserTokens, to: Holding::PoolTokens, amount })
            &&& ev.user == old(user_stake).user && ev.amount == amount
            &&& ev.total_staked == final(user_stake).amount
        },
{
    if pool.is_paused {
        return Err(ErrorCode::PoolPaused);
    }
    if amount == 0 {
        return Err(ErrorCode::InvalidAmount);
    }
    let mut p = *pool;
    let mut u = *user_stake;
    if let Err(e) = settle(&mut p, &mut u, now) {
        return Err(e);
    }
    let total = match p.total_staked.checked_add(amount) {
        Some(t) => t,
        None => return Err(ErrorCode::Overflow),
    };
    let mine = match u.amount.checked_add(amount) {
        Some(m) => m,
        None => return Err(ErrorCode::Overflow),
    };
    p.total_staked = total;
    u.amount = mine;
    u.last_stake_time = now;
    *pool = p;
    *user_stake = u;
    let transfer = TokenTransfer { from: Holding::UserTokens, to: Holding::PoolTokens, amount };
    let event = StakeEvent { user: u.user, amount, total_staked: u.amount };
    Ok((transfer, event))
}

// ---------------------------------------------------------------------------
// Unstake

/// The first check that an unstake fails, if any.
pub open spec fn unstake_error(pool: StakingPool, us: UserStake, amount: u64, now: i64) -> Option<
    ErrorCode,
> {
    if pool.is_paused {
        Some(ErrorCode::PoolPaused)
    } else if amount == 0 {
        Some(ErrorCode::InvalidAmount)
    } else if us.amount < amount {
        Some(ErrorCode::InsufficientStake)
    } else if settle_overflows(pool, us, now) {
        Some(ErrorCode::Overflow)
    } else if pool.total_staked < amount {
        Some(ErrorCode::Underflow)
    } else {
        None
    }
}

pub open spec fn unstaked_pool(pool: StakingPool, us: UserStake, amount: u64, now: i64) -> StakingPool {
    let p = settled_pool(pool, us, now);
    StakingPool { total_staked: (p.total_staked - amount) as u64, ..p }
}

pub open spec fn unstaked_user(pool: StakingPool, us: UserStake, amount: u64, now: i64) -> UserStake {
    let u = settled_user(pool, us, now);
    UserStake { amount: (u.amount - amount) as u64, ..u }
}

/// Takes `amount` out of the participant's position, after settling the
/// yield on the balance it had so far. The tokens move back from the pool by
/// the returned transfer.
pub fn unstake(pool: &mut StakingPool, user_stake: &mut UserStake, amount: u64, now: i64) -> (r:
    Result<(TokenTransfer, UnstakeEvent), ErrorCode>)
    ensures
        r is Err <==> unstake_error(*old(pool), *old(user_stake), amount, now) is Some,
        r matches Err(e) ==> Some(e) == unstake_error(*old(pool), *old(user_stake), amount, now)
            && *final(pool) == *old(pool) && *final(user_stake) == *old(user_stake),
        r matches Ok((t, ev)) ==> {
            &&& *final(pool) == unstaked_pool(*old(pool), *old(user_stake), amount, now)
            &&& *final(user_stake) == unstaked_user(*old(pool), *old(user_stake), amount, now)
            &&& t == (TokenTransfer { from: Holding::PoolTokens, to: Holding::UserTokens, amount })
            &&& ev.user == old(user_stake).user && ev.amount == amount
            &&& ev.remaining_staked == final(user_stake).amount
        },
{
    if pool.is_paused {
        return Err(ErrorCode::PoolPaused);
    }
    if amount == 0 {
        return Err(ErrorCode::InvalidAmount);
    }
    if user_stake.amount < amount {
        return Err(ErrorCode::InsufficientStake);
    }
    let mut p = *pool;
    let mut u = *user_stake;
    if let Err(e) = settle(&mut p, &mut u, now) {
        return Err(e);
    }
    let total = match p.total_staked.checked_sub(amount) {
        Some(t) => t,
        None => return Err(ErrorCode::Underflow),
    };
    p.total_staked = total;
    u.amount = u.amount - amount;
    *pool = p;
    *user_stake = u;
    let transfer = TokenTransfer { from: Holding::PoolTokens, to: Holding::UserTokens, amount };
    let event = UnstakeEvent { user: u.user, amount, remaining_staked: u.amount };
    Ok((transfer, event))
}

// ---------------------------------------------------------------------------
// Claim

/// The first check that a claim fails, if any.
pub open spec fn claim_error(pool: StakingPool, us: UserStake, now: i64) -> Option<ErrorCode> {
    if pool.is_paused {
        Some(ErrorCode::PoolPaused)
    } else if settle_overflows(pool, us, now) {
        Some(ErrorCode::Overflow)
    } else if settled_user(pool, us, now).pending_rewards == 0 {
        Some(ErrorCode::NoRewards)
    } else {
        None
    }
}

pub open spec fn claimed_user(pool: StakingPool, us: UserStake, now: i64) -> UserStake {
    UserStake { pending_rewards: 0, last_claim_time: now, ..settled_user(pool, us, now) }
}

/// Pays out everything accrued up to `now` from the reward vault, by the
/// returned transfer, and clears the pending rewards.
pub fn claim_rewards(pool: &mut StakingPool, user_stake: &mut UserStake, now: i64) -> (r: Result<
    (TokenTransfer, ClaimRewardsEvent),
    ErrorCode,
>)
    ensures
        r is Err <==> claim_error(*old(pool), *old(user_stake), now) is Some,
        r matches Err(e) ==> Some(e) == claim_error(*old(pool), *old(user_stake), now)
            && *final(pool) == *old(pool) && *final(user_stake) == *old(user_stake),
        r matches Ok((t, ev)) ==> {
            let paid = settled_user(*old(pool), *old(user_stake), now).pending_rewards;
            &&& *final(pool) == settled_pool(*old(pool), *old(user_stake), now)
            &&& *final(user_stake) == claimed_user(*old(pool), *old(user_stake), now)
            &&& t == (TokenTransfer {
                from: Holding::RewardVault,
                to: Holding::UserRewards,
                amount: paid,
            })
            &&& ev.user == old(user_stake).user && ev.amount == paid
        },
{
    if pool.is_paused {
        return Err(ErrorCode::PoolPaused);
    }
    let mut p = *pool;
    let mut u = *user_stake;
    if let Err(e) = settle(&mut p, &mut u, now) {
        return Err(e);
    }
    let rewards = u.pending_rewards;
    if rewards == 0 {
        return Err(ErrorCode::NoRewards);
    }
    u.pending_rewards = 0;
    u.last_claim_time = now;
    *pool = p;
    *user_stake = u;
    let transfer = TokenTransfer {
        from: Holding::RewardVault,
        to: Holding::UserRewards,
        amount: rewards,
    };
    let event = ClaimRewardsEvent { user: u.user, amount: rewards };
    Ok((transfer, event))
}

// ---------------------------------------------------------------------------
// Administration

/// Stops stake, unstake and claim until `unpause`. Only the pool's authority
/// may do it. Time keeps elapsing for accrual while the pool is paused.
pub fn pause(pool: &mut StakingPool, signer: &Address, now: i64) -> (r: Result<
    PauseEvent,
    ErrorCode,
>)
    ensures
        r is Ok <==> old(pool).authority == *signer,
        r is Err ==> r == Err::<PauseEvent, ErrorCode>(ErrorCode::Unauthorized) && *final(pool)
            == *old(pool),
        r matches Ok(ev) ==> *final(pool) == (StakingPool { is_paused: true, ..*old(pool) })
            && ev.timestamp == now,
{
    if let Err(e) = authorize(&pool.authority, signer) {
        return Err(e);
    }
    pool.is_paused = true;
    Ok(PauseEvent { timestamp: now })
}

/// Lets stake, unstake and claim run again. Only the pool's authority may do
/// it.
pub fn unpause(pool: &mut StakingPool, signer: &Address, now: i64) -> (r: Result<
    UnpauseEvent,
    ErrorCode,
>)
    ensures
        r is Ok <==> old(pool).authority == *signer,
        r is Err ==> r == Err::<UnpauseEvent, ErrorCode>(ErrorCode::Unauthorized) && *final(pool)
            == *old(pool),
        r matches Ok(ev) ==> *final(pool) == (StakingPool { is_paused: false, ..*old(pool) })
            && ev.timestamp == now,
{
    if let Err(e) = authorize(&pool.authority, signer) {
        return Err(e);
    }
    pool.is_paused = false;
    Ok(UnpauseEvent { timestamp: now })
}

// ---------------------------------------------------------------------------
// Sequences of operations

/// One participant operation, as it reaches the ledger.
#[derive(Clone, Copy, Debug)]
pub enum StakeOp {
    Stake { amount: u64, now: i64 },
    Unstake { amount: u64, now: i64 },
    Claim { now: i64 },
}

/// The pool and position after one operation; a failed operation leaves both
/// as they were.
pub open spec fn apply_op(pool: StakingPool, us: UserStake, op: StakeOp) -> (StakingPool, UserStake) {
    match op {
        StakeOp::Stake { amount, now } => {
            if stake_error(pool, us, amount, now) is Some {
                (pool, us)
            } else {
                (staked_pool(pool, us, amount, now), staked_user(pool, us, amount, now))
            }
        },
        StakeOp::Unstake { amount, now } => {
            if unstake_error(pool, us, amount, now) is Some {
                (pool, us)
            } else {
                (unstaked_pool(pool, us, amount, now), unstaked_user(pool, us, amount, now))
            }
        },
        StakeOp::Claim { now } => {
            if claim_error(pool, us, now) is Some {
                (pool, us)
            } else {
                (settled_pool(pool, us, now), claimed_user(pool, us, now))
            }
        },
    }
}

/// The pool and position after the operations in order.
pub open spec fn apply_ops(pool: StakingPool, us: UserStake, ops: Seq<StakeOp>) -> (
    StakingPool,
    UserStake,
)
    decreases ops.len(),
{
    if ops.len() == 0 {
        (pool, us)
    } else {
        let (p, u) = apply_op(pool, us, ops[0]);
        apply_ops(p, u, ops.subrange(1, ops.len() as int))
    }
}

/// With a single participant, the pool's total stays equal to that
/// participant's staked amount through any sequence of stakes, unstakes and
/// claims, failed ones included.
pub proof fn lemma_single_participant_total(pool: StakingPool, us: UserStake, ops: Seq<StakeOp>)
    requires
        pool.total_staked == us.amount,
    ensures
        apply_ops(pool, us, ops).0.total_staked == apply_ops(pool, us, ops).1.amount,
    decreases ops.len(),
{
    if ops.len() > 0 {
        let (p, u) = apply_op(pool, us, ops[0]);
        lemma_single_participant_total(p, u, ops.subrange(1, ops.len() as int));
    }
}

/// Every operation moves the pool's total by exactly as much as it moves the
/// participant's staked amount, so the total stays the sum of all positions
/// however many participants share the pool.
pub proof fn lemma_total_moves_with_position(pool: StakingPool, us: UserStake, op: StakeOp)
    ensures
        apply_op(pool, us, op).0.total_staked - pool.total_staked == apply_op(pool, us, op).1.amount
            - us.amount,
{
}

/// No operation moves a position's checkpoint backward, and only a claim
/// lowers its pending rewards.
pub proof fn lemma_position_history_kept(pool: StakingPool, us: UserStake, op: StakeOp)
    ensures
        apply_op(pool, us, op).1.last_update_time >= us.last_update_time,
        !(op is Claim) ==> apply_op(pool, us, op).1.pending_rewards >= us.pending_rewards,
{
}

} // verus!
