use nft_marketplace::{
    calculate_rewards, claim_rewards, initialize_pool, stake, unstake, update_reward_rate, Address,
    StakingError, StakingPool, UserStake,
};

fn addr(n: u128) -> Address {
    Address::new(n, 0)
}

fn pool(rate: u64, lock: i64) -> StakingPool {
    initialize_pool(addr(1), addr(2), addr(3), rate, lock, 9).unwrap()
}

fn empty_stake() -> UserStake {
    UserStake {
        owner: addr(0),
        pool: addr(0),
        amount: 0,
        pending_rewards: 0,
        last_update_time: 0,
        lock_end_time: 0,
        total_claimed: 0,
    }
}

#[test]
fn rewards_formula() {
    assert_eq!(calculate_rewards(1_000_000, 0, 86_400, 1_000_000), Ok(1_000_000));
    assert_eq!(calculate_rewards(500, 100, 100 + 43_200, 2_000_000), Ok(500));
    assert_eq!(calculate_rewards(10, 0, 1, 1), Ok(0));
    assert_eq!(calculate_rewards(0, 0, 1_000_000, 5), Ok(0));
}

#[test]
fn rewards_errors() {
    assert_eq!(calculate_rewards(10, 100, 99, 1), Err(StakingError::MathOverflow));
    assert_eq!(calculate_rewards(u64::MAX, 0, i64::MAX, u64::MAX), Err(StakingError::MathOverflow));
    assert_eq!(calculate_rewards(10, i64::MIN, i64::MAX, 1), Ok(((10u128 * u64::MAX as u128) / 86_400 / 1_000_000) as u64));
}

#[test]
fn pool_validation() {
    assert_eq!(initialize_pool(addr(1), addr(2), addr(3), 0, 0, 0), Err(StakingError::InvalidRewardRate));
    assert_eq!(initialize_pool(addr(1), addr(2), addr(3), 1, -1, 0), Err(StakingError::InvalidLockDuration));
    let p = pool(5, 0);
    assert_eq!(p.total_staked, 0);
    assert_eq!(p.reward_rate, 5);
}

#[test]
fn stake_unstake_claim_cycle() {
    let mut p = pool(1_000_000, 100);
    let mut s = empty_stake();
    assert_eq!(stake(&mut p, addr(50), &mut s, addr(7), 0, 0), Err(StakingError::InvalidAmount));
    stake(&mut p, addr(50), &mut s, addr(7), 1_000_000, 0).unwrap();
    assert_eq!(s.owner, addr(7));
    assert_eq!(s.pool, addr(50));
    assert_eq!(s.amount, 1_000_000);
    assert_eq!(s.lock_end_time, 100);
    assert_eq!(p.total_staked, 1_000_000);

    stake(&mut p, addr(50), &mut s, addr(7), 1_000_000, 86_400).unwrap();
    assert_eq!(s.pending_rewards, 1_000_000);
    assert_eq!(s.amount, 2_000_000);
    assert_eq!(s.lock_end_time, 86_500);
    assert_eq!(p.total_staked, 2_000_000);

    let s0 = s;
    assert_eq!(unstake(&mut p, &mut s, 500, 86_499), Err(StakingError::StillLocked));
    assert_eq!(unstake(&mut p, &mut s, 3_000_000, 90_000), Err(StakingError::InsufficientStake));
    assert_eq!(unstake(&mut p, &mut s, 0, 90_000), Err(StakingError::InvalidAmount));
    assert_eq!(s, s0);

    unstake(&mut p, &mut s, 1_000_000, 86_400 + 43_200).unwrap();
    assert_eq!(s.amount, 1_000_000);
    assert_eq!(s.pending_rewards, 2_000_000);
    assert_eq!(p.total_staked, 1_000_000);

    let total = claim_rewards(&p, &mut s, 2 * 86_400).unwrap();
    assert_eq!(total, 2_500_000);
    assert_eq!(s.pending_rewards, 0);
    assert_eq!(s.total_claimed, 2_500_000);
    assert_eq!(s.last_update_time, 2 * 86_400);
    assert_eq!(claim_rewards(&p, &mut s, 2 * 86_400), Err(StakingError::NoRewardsToClaim));
}

#[test]
fn reward_rate_update() {
    let mut p = pool(5, 0);
    assert_eq!(update_reward_rate(&mut p, 0), Err(StakingError::InvalidRewardRate));
    assert_eq!(p.reward_rate, 5);
    update_reward_rate(&mut p, 8).unwrap();
    assert_eq!(p.reward_rate, 8);
}
