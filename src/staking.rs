use vstd::prelude::*;
use crate::address::Address;

verus! {

/// Seconds in a day: reward rates are per day.
pub const SECONDS_PER_DAY: u128 = 86400;

/// Fixed-point scale of a reward rate.
pub const REWARD_PRECISION: u128 = 1000000;

/// Why a staking operation was refused. A refusal changes no record.
#[derive(Clone, Copy, Debug, PartialEq, Eq, Structural)]
pub enum StakingError {
    InvalidRewardRate,
    InvalidLockDuration,
    InvalidAmount,
    InsufficientStake,
    StillLocked,
    NoRewardsToClaim,
    /// A sum, product or difference left the range of its type, or the
    /// clock stood before the last update.
    MathOverflow,
}

/// A pool that takes deposits of one token and pays rewards in another.
#[derive(Clone, Copy, Debug, PartialEq, Eq, Structural)]
pub struct StakingPool {
    pub authority: Address,
    pub staking_mint: Address,
    pub reward_mint: Address,
    pub reward_rate: u64,
    pub lock_duration: i64,
    pub total_staked: u64,
    pub bump: u8,
}

/// One user's position in a pool.
#[derive(Clone, Copy, Debug, PartialEq, Eq, Structural)]
pub struct UserStake {
    pub owner: Address,
    pub pool: Address,
    pub amount: u64,
    pub pending_rewards: u64,
    pub last_update_time: i64,
    pub lock_end_time: i64,
    pub total_claimed: u64,
}

/// Rewards earned by `amount` staked at `rate` for `elapsed` seconds,
/// rounded down.
pub open spec fn reward_for(amount: int, rate: int, elapsed: int) -> int {
    amount * rate * elapsed / (SECONDS_PER_DAY as int) / (REWARD_PRECISION as int)
}

/// Whether the reward between `last` and `now` can be computed: the clock has
/// not gone back, the product fits in 128 bits and the result in 64.
pub open spec fn rewards_ok(amount: u64, last: i64, now: i64, rate: u64) -> bool {
    &&& last <= now
    &&& amount * rate * (now - last) <= u128::MAX
    &&& reward_for(amount as int, rate as int, now - last) <= u64::MAX
}

/// Rewards earned by `staked_amount` at `reward_rate` per day (scaled by a
/// million) from `last_update` to `current_time`, rounded down. Fails with
/// `MathOverflow` when the clock stands before `last_update` or the result
/// does not fit.
pub fn calculate_rewards(staked_amount: u64, last_update: i64, current_time: i64, reward_rate: u64) -> (r:
    Result<u64, StakingError>)
    ensures
        match r {
            Ok(v) => rewards_ok(staked_amount, last_update, current_time, reward_rate) && v
                == reward_for(staked_amount as int, reward_rate as int, current_time - last_update),
            Err(e) => !rewards_ok(staked_amount, last_update, current_time, reward_rate) && e
                == StakingError::MathOverflow,
        },
{
    if current_time < last_update {
        return Err(StakingError::MathOverflow);
    }
    let elapsed: u128 = (current_time as i128 - last_update as i128) as u128;
    assert((staked_amount as int) * (reward_rate as int) <= u128::MAX) by (nonlinear_arith)
        requires
            staked_amount <= u64::MAX,
            reward_rate <= u64::MAX,
    ;
    let base: u128 = (staked_amount as u128) * (reward_rate as u128);
    let product: u128 = match base.checked_mul(elapsed) {
        Some(p) => p,
        None => return Err(StakingError::MathOverflow),
    };
    let rewards: u128 = product / SECONDS_PER_DAY / REWARD_PRECISION;
    if rewards > u64::MAX as u128 {
        return Err(StakingError::MathOverflow);
    }
    Ok(rewards as u64)
}

/// Creates an empty pool. The reward rate must be positive and the lock
/// duration not negative.
pub fn initialize_pool(
    authority: Address,
    staking_mint: Address,
    reward_mint: Address,
    reward_rate: u64,
    lock_duration: i64,
    bump: u8,
) -> (r: Result<StakingPool, StakingError>)
    ensures
        match r {
            Ok(p) => reward_rate > 0 && lock_duration >= 0 && p == (StakingPool {
                authority,
                staking_mint,
                reward_mint,
                reward_rate,
                lock_duration,
                total_staked: 0,
                bump,
            }),
            Err(e) => e == if reward_rate == 0 {
                StakingError::InvalidRewardRate
            } else {
                StakingError::InvalidLockDuration
            } && (reward_rate == 0 || lock_duration < 0),
        },
{
    if reward_rate == 0 {
        return Err(StakingError::InvalidRewardRate);
    }
    if lock_duration < 0 {
        return Err(StakingError::InvalidLockDuration);
    }
    Ok(StakingPool {
        authority,
        staking_mint,
        reward_mint,
        reward_rate,
        lock_duration,
        total_staked: 0,
        bump,
    })
}

/// Rewards that a position has earned since its last update.
pub open spec fn accrued(pool: StakingPool, s: UserStake, now: i64) -> int {
    reward_for(s.amount as int, pool.reward_rate as int, now - s.last_update_time)
}

/// The error, if any, with which `stake` refuses a deposit of `amount`.
pub open spec fn stake_error(pool: StakingPool, s: UserStake, amount: u64, now: i64) -> Option<
    StakingError,
> {
    if amount == 0 {
        Some(StakingError::InvalidAmount)
    } else if s.amount > 0 && !rewards_ok(s.amount, s.last_update_time, now, pool.reward_rate) {
        Some(StakingError::MathOverflow)
    } else if s.amount > 0 && s.pending_rewards + accrued(pool, s, now) > u64::MAX {
        Some(StakingError::MathOverflow)
    } else if s.amount + amount > u64::MAX || pool.total_staked + amount > u64::MAX {
        Some(StakingError::MathOverflow)
    } else if now + pool.lock_duration > i64::MAX || now + pool.lock_duration < i64::MIN {
        Some(StakingError::MathOverflow)
    } else {
        None
    }
}

/// Deposits `amount` for `user` at `now`. Rewards earned so far are kept as
/// pending, the position grows by `amount` and is locked for the pool's lock
/// duration from now, and the pool's total grows by `amount`. The caller
/// moves `amount` staking tokens from the user into the pool.
pub fn stake(
    pool: &mut StakingPool,
    pool_key: Address,
    user_stake: &mut UserStake,
    user: Address,
    amount: u64,
    now: i64,
) -> (r: Result<(), StakingError>)
    ensures
        match r {
            Ok(()) => {
                &&& stake_error(*old(pool), *old(user_stake), amount, now) is None
                &&& *final(user_stake) == (UserStake {
                    owner: user,
                    pool: pool_key,
                    amount: (old(user_stake).amount + amount) as u64,
                    pending_rewards: (old(user_stake).pending_rewards + if old(user_stake).amount
                        > 0 {
                        accrued(*old(pool), *old(user_stake), now)
                    } else {
                        0
                    }) as u64,
                    last_update_time: now,
                    lock_end_time: (now + old(pool).lock_duration) as i64,
                    total_claimed: old(user_stake).total_claimed,
                })
                &&& *final(pool) == (StakingPool {
                    total_staked: (old(pool).total_staked + amount) as u64,
                    ..*old(pool)
                })
            },
            Err(e) => {
                &&& stake_error(*old(pool), *old(user_stake), amount, now) == Some(e)
                &&& *final(pool) == *old(pool)
                &&& *final(user_stake) == *old(user_stake)
            },
        },
{
    if amount == 0 {
        return Err(StakingError::InvalidAmount);
    }
    let mut pending = user_stake.pending_rewards;
    if user_stake.amount > 0 {
        let earned = calculate_rewards(
            user_stake.amount,
            user_stake.last_update_time,
            now,
            pool.reward_rate,
        )?;
        pending = match pending.checked_add(earned) {
            Some(p) => p,
            None => return Err(StakingError::MathOverflow),
        };
    }
    let new_amount = match user_stake.amount.checked_add(amount) {
        Some(a) => a,
        None => return Err(StakingError::MathOverflow),
    };
    let new_total = match pool.total_staked.checked_add(amount) {
        Some(t) => t,
        None => return Err(StakingError::MathOverflow),
    };
    let lock_end = match now.checked_add(pool.lock_duration) {
        Some(t) => t,
        None => return Err(StakingError::MathOverflow),
    };
    user_stake.owner = user;
    user_stake.pool = pool_key;
    user_stake.amount = new_amount;
    user_stake.pending_rewards = pending;
    user_stake.last_update_time = now;
    user_stake.lock_end_time = lock_end;
    pool.total_staked = new_total;
    Ok(())
}

/// The error, if any, with which `unstake` refuses a withdrawal of `amount`.
pub open spec fn unstake_error(pool: StakingPool, s: UserStake, amount: u64, now: i64) -> Option<
    StakingError,
> {
    if amount == 0 {
        Some(StakingError::InvalidAmount)
    } else if s.amount < amount {
        Some(StakingError::InsufficientStake)
    } else if now < s.lock_end_time {
        Some(StakingError::StillLocked)
    } else if !rewards_ok(s.amount, s.last_update_time, now, pool.reward_rate) {
        Some(StakingError::MathOverflow)
    } else if s.pending_rewards + accrued(pool, s, now) > u64::MAX {
        Some(StakingError::MathOverflow)
    } else if pool.total_staked < amount {
        Some(StakingError::MathOverflow)
    } else {
        None
    }
}

/// Withdraws `amount` at `now`, once the lock has ended. Rewards earned so
/// far are kept as pending and the position and the pool's total shrink by
/// `amount`. The caller moves `amount` staking tokens back to the user.
pub fn unstake(pool: &mut StakingPool, user_stake: &mut UserStake, amount: u64, now: i64) -> (r:
    Result<(), StakingError>)
    ensures
        match r {
            Ok(()) => {
                &&& unstake_error(*old(pool), *old(user_stake), amount, now) is None
                &&& *final(user_stake) == (UserStake {
                    amount: (old(user_stake).amount - amount) as u64,
                    pending_rewards: (old(user_stake).pending_rewards + accrued(
                        *old(pool),
                        *old(user_stake),
                        now,
                    )) as u64,
                    last_update_time: now,
                    ..*old(user_stake)
                })
                &&& *final(pool) == (StakingPool {
                    total_staked: (old(pool).total_staked - amount) as u64,
                    ..*old(pool)
                })
            },
            Err(e) => {
                &&& unstake_error(*old(pool), *old(user_stake), amount, now) == Some(e)
                &&& *final(pool) == *old(pool)
                &&& *final(user_stake) == *old(user_stake)
            },
        },
{
    if amount == 0 {
        return Err(StakingError::InvalidAmount);
    }
    if user_stake.amount < amount {
        return Err(StakingError::InsufficientStake);
    }
    if now < user_stake.lock_end_time {
        return Err(StakingError::StillLocked);
    }
    let earned = calculate_rewards(
        user_stake.amount,
        user_stake.last_update_time,
        now,
        pool.reward_rate,
    )?;
    let pending = match user_stake.pending_rewards.checked_add(earned) {
        Some(p) => p,
        None => return Err(StakingError::MathOverflow),
    };
    if pool.total_staked < amount {
        return Err(StakingError::MathOverflow);
    }
    user_stake.pending_rewards = pending;
    user_stake.amount = user_stake.amount - amount;
    user_stake.last_update_time = now;
    pool.total_staked = pool.total_staked - amount;
    Ok(())
}

/// The error, if any, with which `claim_rewards` refuses at `now`.
pub open spec fn claim_error(pool: StakingPool, s: UserStake, now: i64) -> Option<StakingError> {
    if !rewards_ok(s.amount, s.last_update_time, now, pool.reward_rate) {
        Some(StakingError::MathOverflow)
    } else if s.pending_rewards + accrued(pool, s, now) > u64::MAX {
        Some(StakingError::MathOverflow)
    } else if s.pending_rewards + accrued(pool, s, now) == 0 {
        Some(StakingError::NoRewardsToClaim)
    } else if s.total_claimed + s.pending_rewards + accrued(pool, s, now) > u64::MAX {
        Some(StakingError::MathOverflow)
    } else {
        None
    }
}

/// Pays out everything the position has earned up to `now`: the pending
/// rewards and those accrued since the last update. Returns that total,
/// which the caller moves from the reward vault to the user.
pub fn claim_rewards(pool: &StakingPool, user_stake: &mut UserStake, now: i64) -> (r: Result<
    u64,
    StakingError,
>)
    ensures
        match r {
            Ok(total) => {
                &&& claim_error(*pool, *old(user_stake), now) is None
                &&& total == old(user_stake).pending_rewards + accrued(*pool, *old(user_stake), now)
                &&& *final(user_stake) == (UserStake {
                    pending_rewards: 0,
                    last_update_time: now,
                    total_claimed: (old(user_stake).total_claimed + total) as u64,
                    ..*old(user_stake)
                })
            },
            Err(e) => claim_error(*pool, *old(user_stake), now) == Some(e) && *final(user_stake)
                == *old(user_stake),
        },
{
    let earned = calculate_rewards(
        user_stake.amount,
        user_stake.last_update_time,
        now,
        pool.reward_rate,
    )?;
    let total = match user_stake.pending_rewards.checked_add(earned) {
        Some(t) => t,
        None => return Err(StakingError::MathOverflow),
    };
    if total == 0 {
        return Err(StakingError::NoRewardsToClaim);
    }
    let claimed = match user_stake.total_claimed.checked_add(total) {
        Some(c) => c,
        None => return Err(StakingError::MathOverflow),
    };
    user_stake.pending_rewards = 0;
    user_stake.last_update_time = now;
    user_stake.total_claimed = claimed;
    Ok(total)
}

/// Sets a new positive reward rate.
pub fn update_reward_rate(pool: &mut StakingPool, new_rate: u64) -> (r: Result<(), StakingError>)
    ensures
        match r {
            Ok(()) => new_rate > 0 && *final(pool) == (StakingPool {
                reward_rate: new_rate,
                ..*old(pool)
            }),
            Err(e) => new_rate == 0 && e == StakingError::InvalidRewardRate && *final(pool) == *old(
                pool,
            ),
        },
{
    if new_rate == 0 {
        return Err(StakingError::InvalidRewardRate);
    }
    pool.reward_rate = new_rate;
    Ok(())
}

} // verus!
