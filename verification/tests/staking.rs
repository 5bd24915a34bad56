use royalpot::address::Address;
use royalpot::staking::{
    calculate_reward, early_withdraw, initialize_staking, release_stake, stake,
    EarlyWithdrawEvent, ReleaseEvent, StakeEvent, StakeType, StakingErrorCode, StakingInitialized,
    StakingState, UserStake,
};

fn addr(n: u8) -> Address {
    Address { bytes: [n; 32] }
}

fn state() -> StakingState {
    initialize_staking(addr(1), addr(2), 10_000_000, 2_000_000_000_000, 3).0
}

#[test]
fn reward_is_principal_times_rate_times_days() {
    assert_eq!(calculate_reward(1_000_000_000, 800, 30), Ok(6_575_342));
    assert_eq!(calculate_reward(5_000_000_000_000, 4800, 180), Ok(1_183_561_643_835));
    assert_eq!(calculate_reward(0, 800, 30), Ok(0));
    assert_eq!(calculate_reward(1_000, 800, 0), Ok(0));
    assert_eq!(calculate_reward(3_650_000, 1, 1), Ok(1));
    assert_eq!(calculate_reward(3_649_999, 1, 1), Ok(0));
}

#[test]
fn reward_beyond_128_bits_is_an_overflow() {
    assert_eq!(
        calculate_reward(u64::MAX, u64::MAX, i64::MAX),
        Err(StakingErrorCode::MathOverflow)
    );
    assert_eq!(calculate_reward(u64::MAX, u64::MAX, 2), Err(StakingErrorCode::MathOverflow));
    assert_eq!(calculate_reward(u64::MAX, u64::MAX, 1), Ok(15_169_864_456_455_786_866));
    assert_eq!(calculate_reward(2, 1, -1), Err(StakingErrorCode::MathOverflow));
    assert_eq!(calculate_reward(0, 5, -1), Ok(0));
}

#[test]
fn staking_starts_empty() {
    let (s, e) = initialize_staking(addr(1), addr(2), 10, 20, 3);
    assert_eq!(
        s,
        StakingState {
            authority: addr(1),
            token_mint: addr(2),
            short_term_pool: 10,
            long_term_pool: 20,
            total_staked_short: 0,
            total_staked_long: 0,
            short_term_released: 0,
            long_term_released: 0,
            bump: 3,
        }
    );
    assert_eq!(e, StakingInitialized { short_term_pool: 10, long_term_pool: 20 });
}

#[test]
fn a_stake_sets_its_reward_aside() {
    let mut s = state();
    let (st, ev) = stake(&mut s, addr(9), 4, 1_000_000_000, StakeType::ShortTerm, 1_000).unwrap();
    assert_eq!(
        st,
        UserStake {
            owner: addr(9),
            amount: 1_000_000_000,
            reward: 6_575_342,
            start_time: 1_000,
            end_time: 1_000 + 30 * 86_400,
            stake_type: StakeType::ShortTerm,
            claimed: false,
            stake_index: 4,
        }
    );
    assert_eq!(
        ev,
        StakeEvent {
            user: addr(9),
            amount: 1_000_000_000,
            reward: 6_575_342,
            stake_type: StakeType::ShortTerm,
            end_time: 1_000 + 30 * 86_400,
        }
    );
    assert_eq!(s.short_term_pool, 10_000_000 - 6_575_342);
    assert_eq!(s.total_staked_short, 1_000_000_000);
    assert_eq!(s.long_term_pool, 2_000_000_000_000);
    assert_eq!(s.total_staked_long, 0);

    let (long, _) = stake(&mut s, addr(9), 5, 5_000_000_000_000, StakeType::LongTerm, 0).unwrap();
    assert_eq!(long.reward, 1_183_561_643_835);
    assert_eq!(long.end_time, 180 * 86_400);
    assert_eq!(s.long_term_pool, 2_000_000_000_000 - 1_183_561_643_835);
    assert_eq!(s.total_staked_long, 5_000_000_000_000);
}

#[test]
fn stake_errors() {
    let mut s = state();
    let before = s;
    assert_eq!(
        stake(&mut s, addr(9), 0, 0, StakeType::ShortTerm, 0),
        Err(StakingErrorCode::InvalidAmount)
    );
    assert_eq!(
        stake(&mut s, addr(9), 0, 2_000_000_000, StakeType::ShortTerm, 0),
        Err(StakingErrorCode::InsufficientRewardPool)
    );
    assert_eq!(
        stake(&mut s, addr(9), 0, 1_000, StakeType::ShortTerm, i64::MAX - 30 * 86_400 + 1),
        Err(StakingErrorCode::MathOverflow)
    );
    let mut full = before;
    full.total_staked_short = u64::MAX;
    assert_eq!(
        stake(&mut full, addr(9), 0, 1, StakeType::ShortTerm, 0),
        Err(StakingErrorCode::MathOverflow)
    );
    assert_eq!(s, before);
}

#[test]
fn a_matured_stake_is_released_once_with_its_reward() {
    let mut s = state();
    let (mut st, _) = stake(&mut s, addr(9), 4, 1_000_000_000, StakeType::ShortTerm, 1_000).unwrap();
    let staked = s;
    let end = st.end_time;
    assert_eq!(
        release_stake(&mut s, &mut st, end - 1),
        Err(StakingErrorCode::StakeNotMatured)
    );
    assert_eq!(s, staked);
    assert_eq!(
        release_stake(&mut s, &mut st, end),
        Ok(ReleaseEvent {
            user: addr(9),
            principal: 1_000_000_000,
            reward: 6_575_342,
            total: 1_006_575_342
        })
    );
    assert!(st.claimed);
    assert_eq!(s.total_staked_short, 0);
    assert_eq!(s.short_term_released, 1_006_575_342);
    assert_eq!(s.short_term_pool, 10_000_000 - 6_575_342);
    assert_eq!(release_stake(&mut s, &mut st, end), Err(StakingErrorCode::AlreadyClaimed));
    assert_eq!(early_withdraw(&mut s, &mut st, 0), Err(StakingErrorCode::AlreadyClaimed));
}

#[test]
fn an_early_withdrawal_forfeits_the_reward() {
    let mut s = state();
    let (mut st, _) = stake(&mut s, addr(9), 4, 1_000_000_000, StakeType::ShortTerm, 1_000).unwrap();
    let end = st.end_time;
    assert_eq!(
        early_withdraw(&mut s, &mut st, end),
        Err(StakingErrorCode::StakeMaturedUseRelease)
    );
    assert_eq!(
        early_withdraw(&mut s, &mut st, end - 1),
        Ok(EarlyWithdrawEvent {
            user: addr(9),
            principal: 1_000_000_000,
            forfeited_reward: 6_575_342
        })
    );
    assert!(st.claimed);
    assert_eq!(s, state());
}

#[test]
fn release_and_withdrawal_guard_their_arithmetic() {
    let mut s = state();
    let mut foreign = UserStake {
        owner: addr(9),
        amount: 5,
        reward: 1,
        start_time: 0,
        end_time: 100,
        stake_type: StakeType::LongTerm,
        claimed: false,
        stake_index: 0,
    };
    assert_eq!(release_stake(&mut s, &mut foreign, 100), Err(StakingErrorCode::MathOverflow));
    assert_eq!(early_withdraw(&mut s, &mut foreign, 99), Err(StakingErrorCode::MathOverflow));
    assert!(!foreign.claimed);
    assert_eq!(s, state());
}
