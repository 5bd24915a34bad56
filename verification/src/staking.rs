use vstd::prelude::*;
use crate::address::Address;

verus! {

/// Yearly rate of a short stake, in basis points.
pub const STAKING_APR_SHORT: u64 = 800;

/// Yearly rate of a long stake, in basis points.
pub const STAKING_APR_LONG: u64 = 4800;

/// Days of a short stake.
pub const SHORT_STAKE_DAYS: i64 = 30;

/// Days of a long stake.
pub const LONG_STAKE_DAYS: i64 = 180;

/// Seconds in a day.
pub const SECONDS_PER_DAY: i64 = 86400;

/// Why a staking operation was rejected.
#[derive(Clone, Copy, Debug, PartialEq, Eq, Structural)]
pub enum StakingErrorCode {
    /// The amount to stake is zero.
    InvalidAmount,
    /// The reward pool of the term is used up.
    PoolExhausted,
    /// The reward pool of the term does not cover the reward.
    InsufficientRewardPool,
    /// The stake was paid back already.
    AlreadyClaimed,
    /// The term of the stake has not ended.
    StakeNotMatured,
    /// The term of the stake has ended: it is released, not withdrawn.
    StakeMaturedUseRelease,
    /// An amount or a time left its integer range.
    MathOverflow,
}

/// The two terms of a stake.
#[derive(Clone, Copy, Debug, PartialEq, Eq, Structural)]
pub enum StakeType {
    /// Thirty days at 8% a year.
    ShortTerm,
    /// A hundred and eighty days at 48% a year.
    LongTerm,
}

impl StakeType {
    /// Yearly rate in basis points.
    pub open spec fn apr(&self) -> u64 {
        match self {
            StakeType::ShortTerm => 800,
            StakeType::LongTerm => 4800,
        }
    }

    /// Length of the term in days.
    pub open spec fn days(&self) -> i64 {
        match self {
            StakeType::ShortTerm => 30,
            StakeType::LongTerm => 180,
        }
    }
}

/// The reward pools and what is staked against them.
#[derive(Clone, Copy, Debug, PartialEq, Eq)]
pub struct StakingState {
    pub authority: Address,
    pub token_mint: Address,
    pub short_term_pool: u64,
    pub long_term_pool: u64,
    pub total_staked_short: u64,
    pub total_staked_long: u64,
    pub short_term_released: u64,
    pub long_term_released: u64,
    pub bump: u8,
}

impl StakingState {
    /// What is left of the reward pool of a term.
    pub open spec fn pool_of(&self, t: StakeType) -> u64 {
        match t {
            StakeType::ShortTerm => self.short_term_pool,
            StakeType::LongTerm => self.long_term_pool,
        }
    }

    /// What is staked for a term.
    pub open spec fn staked_of(&self, t: StakeType) -> u64 {
        match t {
            StakeType::ShortTerm => self.total_staked_short,
            StakeType::LongTerm => self.total_staked_long,
        }
    }

    /// What was paid back for a term, rewards included.
    pub open spec fn released_of(&self, t: StakeType) -> u64 {
        match t {
            StakeType::ShortTerm => self.short_term_released,
            StakeType::LongTerm => self.long_term_released,
        }
    }

    /// This state with other figures for one term.
    pub open spec fn with_term(&self, t: StakeType, pool: u64, staked: u64, released: u64) -> Self {
        match t {
            StakeType::ShortTerm => StakingState {
                short_term_pool: pool,
                total_staked_short: staked,
                short_term_released: released,
                ..*self
            },
            StakeType::LongTerm => StakingState {
                long_term_pool: pool,
                total_staked_long: staked,
                long_term_released: released,
                ..*self
            },
        }
    }

    /// What is left of the reward pool of a term.
    fn pool(&self, t: StakeType) -> (v: u64)
        ensures
            v == self.pool_of(t),
    {
        match t {
            StakeType::ShortTerm => self.short_term_pool,
            StakeType::LongTerm => self.long_term_pool,
        }
    }

    /// What is staked for a term.
    fn staked(&self, t: StakeType) -> (v: u64)
        ensures
            v == self.staked_of(t),
    {
        match t {
            StakeType::ShortTerm => self.total_staked_short,
            StakeType::LongTerm => self.total_staked_long,
        }
    }

    /// What was paid back for a term.
    fn released(&self, t: StakeType) -> (v: u64)
        ensures
            v == self.released_of(t),
    {
        match t {
            StakeType::ShortTerm => self.short_term_released,
            StakeType::LongTerm => self.long_term_released,
        }
    }

    /// Replaces the figures of one term.
    fn set_term(&mut self, t: StakeType, pool: u64, staked: u64, released: u64)
        ensures
            *final(self) == old(self).with_term(t, pool, staked, released),
    {
        match t {
            StakeType::ShortTerm => {
                self.short_term_pool = pool;
                self.total_staked_short = staked;
                self.short_term_released = released;
            },
            StakeType::LongTerm => {
                self.long_term_pool = pool;
                self.total_staked_long = staked;
                self.long_term_released = released;
            },
        }
    }
}

/// One stake of one user.
#[derive(Clone, Copy, Debug, PartialEq, Eq)]
pub struct UserStake {
    pub owner: Address,
    pub amount: u64,
    pub reward: u64,
    pub start_time: i64,
    pub end_time: i64,
    pub stake_type: StakeType,
    pub claimed: bool,
    pub stake_index: u64,
}

/// The staking module was opened.
#[derive(Clone, Copy, Debug, PartialEq, Eq)]
pub struct StakingInitialized {
    pub short_term_pool: u64,
    pub long_term_pool: u64,
}

/// A stake was made. `amount` is what moves from the user into the vault.
#[derive(Clone, Copy, Debug, PartialEq, Eq)]
pub struct StakeEvent {
    pub user: Address,
    pub amount: u64,
    pub reward: u64,
    pub stake_type: StakeType,
    pub end_time: i64,
}

/// A matured stake was paid back. `total` is what moves from the vault to
/// the user.
#[derive(Clone, Copy, Debug, PartialEq, Eq)]
pub struct ReleaseEvent {
    pub user: Address,
    pub principal: u64,
    pub reward: u64,
    pub total: u64,
}

/// A stake was withdrawn early. `principal` is what moves from the vault to
/// the user.
#[derive(Clone, Copy, Debug, PartialEq, Eq)]
pub struct EarlyWithdrawEvent {
    pub user: Address,
    pub principal: u64,
    pub forfeited_reward: u64,
}

/// A number of days as the 128-bit unsigned factor that it is used as: a
/// negative number wraps around 2^128.
pub open spec fn days_factor(days: i64) -> int {
    if days >= 0 {
        days as int
    } else {
        0x1_0000_0000_0000_0000_0000_0000_0000_0000 + days
    }
}

/// `amount * apr * days / 365 / 10_000` in 128 bits, cut to its low 64 bits;
/// nothing where the product leaves 128 bits.
pub open spec fn reward_of(amount: u64, apr: u64, days: i64) -> Option<u64> {
    let product = amount * apr * days_factor(days);
    if product > u128::MAX {
        None
    } else {
        Some(((product / 365 / 10_000) % 0x1_0000_0000_0000_0000) as u64)
    }
}

/// The reward of a stake: principal times yearly rate times days, over 365
/// days and 10,000 basis points, computed in 128 bits and rounded down.
pub fn calculate_reward(amount: u64, apr: u64, days: i64) -> (r: Result<u64, StakingErrorCode>)
    ensures
        match reward_of(amount, apr, days) {
            Some(reward) => r == Ok::<u64, StakingErrorCode>(reward),
            None => r == Err::<u64, StakingErrorCode>(StakingErrorCode::MathOverflow),
        },
{
    assert(0 <= (amount as int) * (apr as int) <= 0xFFFF_FFFF_FFFF_FFFF * 0xFFFF_FFFF_FFFF_FFFF)
        by (nonlinear_arith)
        requires
            0 <= amount <= 0xFFFF_FFFF_FFFF_FFFF,
            0 <= apr <= 0xFFFF_FFFF_FFFF_FFFF,
    ;
    let yearly: u128 = (amount as u128) * (apr as u128);
    let factor: u128 = if days >= 0 {
        days as u128
    } else {
        u128::MAX - ((-(days + 1)) as u128)
    };
    assert(factor == days_factor(days));
    let product: u128 = match yearly.checked_mul(factor) {
        Some(p) => p,
        None => {
            return Err(StakingErrorCode::MathOverflow);
        },
    };
    let reward: u128 = product / 365 / 10_000;
    Ok((reward % 0x1_0000_0000_0000_0000u128) as u64)
}

/// Opens the staking module with its two reward pools.
pub fn initialize_staking(
    authority: Address,
    token_mint: Address,
    short_term_pool: u64,
    long_term_pool: u64,
    bump: u8,
) -> (r: (StakingState, StakingInitialized))
    ensures
        r.0 == (StakingState {
            authority,
            token_mint,
            short_term_pool,
            long_term_pool,
            total_staked_short: 0,
            total_staked_long: 0,
            short_term_released: 0,
            long_term_released: 0,
            bump,
        }),
        r.1 == (StakingInitialized { short_term_pool, long_term_pool }),
{
    (
        StakingState {
            authority,
            token_mint,
            short_term_pool,
            long_term_pool,
            total_staked_short: 0,
            total_staked_long: 0,
            short_term_released: 0,
            long_term_released: 0,
            bump,
        },
        StakingInitialized { short_term_pool, long_term_pool },
    )
}

/// Why a stake is rejected, if it is.
pub open spec fn stake_error(state: StakingState, amount: u64, t: StakeType, now: i64) -> Option<
    StakingErrorCode,
> {
    if amount == 0 {
        Some(StakingErrorCode::InvalidAmount)
    } else {
        match reward_of(amount, t.apr(), t.days()) {
            None => Some(StakingErrorCode::MathOverflow),
            Some(reward) => if reward > state.pool_of(t) {
                Some(StakingErrorCode::InsufficientRewardPool)
            } else if state.staked_of(t) + amount > u64::MAX || now + t.days() * 86_400
                > i64::MAX {
                Some(StakingErrorCode::MathOverflow)
            } else {
                None
            },
        }
    }
}

/// Locks `amount` for the term of `stake_type`. The reward is fixed now and
/// set aside from the term's reward pool, which must cover it.
///
/// A rejected stake leaves the state as it was.
pub fn stake(
    state: &mut StakingState,
    user: Address,
    stake_index: u64,
    amount: u64,
    stake_type: StakeType,
    now: i64,
) -> (r: Result<(UserStake, StakeEvent), StakingErrorCode>)
    ensures
        match stake_error(*old(state), amount, stake_type, now) {
            Some(e) => r == Err::<(UserStake, StakeEvent), StakingErrorCode>(e) && *final(state)
                == *old(state),
            None => {
                let reward = reward_of(amount, stake_type.apr(), stake_type.days()).unwrap();
                let end_time = (now + stake_type.days() * 86_400) as i64;
                &&& r == Ok::<(UserStake, StakeEvent), StakingErrorCode>(
                    (
                        UserStake {
                            owner: user,
                            amount,
                            reward,
                            start_time: now,
                            end_time,
                            stake_type,
                            claimed: false,
                            stake_index,
                        },
                        StakeEvent { user, amount, reward, stake_type, end_time },
                    ),
                )
                &&& *final(state) == old(state).with_term(
                    stake_type,
                    (old(state).pool_of(stake_type) - reward) as u64,
                    (old(state).staked_of(stake_type) + amount) as u64,
                    old(state).released_of(stake_type),
                )
            },
        },
{
    if amount == 0 {
        return Err(StakingErrorCode::InvalidAmount);
    }
    let (apr, days): (u64, i64) = match stake_type {
        StakeType::ShortTerm => (STAKING_APR_SHORT, SHORT_STAKE_DAYS),
        StakeType::LongTerm => (STAKING_APR_LONG, LONG_STAKE_DAYS),
    };
    let reward: u64 = match calculate_reward(amount, apr, days) {
        Ok(v) => v,
        Err(e) => {
            return Err(e);
        },
    };
    let pool_remaining: u64 = state.pool(stake_type);
    if reward > pool_remaining {
        return Err(StakingErrorCode::InsufficientRewardPool);
    }
    let staked: u64 = match state.staked(stake_type).checked_add(amount) {
        Some(v) => v,
        None => {
            return Err(StakingErrorCode::MathOverflow);
        },
    };
    let end_time: i64 = match now.checked_add(days * SECONDS_PER_DAY) {
        Some(v) => v,
        None => {
            return Err(StakingErrorCode::MathOverflow);
        },
    };
    let released: u64 = state.released(stake_type);
    state.set_term(stake_type, pool_remaining - reward, staked, released);
    Ok(
        (
            UserStake {
                owner: user,
                amount,
                reward,
                start_time: now,
                end_time,
                stake_type,
                claimed: false,
                stake_index,
            },
            StakeEvent { user, amount, reward, stake_type, end_time },
        ),
    )
}

/// Why a release is rejected, if it is.
pub open spec fn release_error(state: StakingState, s: UserStake, now: i64) -> Option<
    StakingErrorCode,
> {
    if s.claimed {
        Some(StakingErrorCode::AlreadyClaimed)
    } else if now < s.end_time {
        Some(StakingErrorCode::StakeNotMatured)
    } else if s.amount + s.reward > u64::MAX || state.staked_of(s.stake_type) < s.amount
        || state.released_of(s.stake_type) + s.amount + s.reward > u64::MAX {
        Some(StakingErrorCode::MathOverflow)
    } else {
        None
    }
}

/// Pays back a matured stake with its reward, once.
///
/// A rejected release leaves state and stake as they were.
pub fn release_stake(state: &mut StakingState, user_stake: &mut UserStake, now: i64) -> (r: Result<
    ReleaseEvent,
    StakingErrorCode,
>)
    ensures
        match release_error(*old(state), *old(user_stake), now) {
            Some(e) => r == Err::<ReleaseEvent, StakingErrorCode>(e) && *final(state) == *old(state)
                && *final(user_stake) == *old(user_stake),
            None => {
                let s = *old(user_stake);
                &&& r == Ok::<ReleaseEvent, StakingErrorCode>(
                    ReleaseEvent {
                        user: s.owner,
                        principal: s.amount,
                        reward: s.reward,
                        total: (s.amount + s.reward) as u64,
                    },
                )
                &&& *final(user_stake) == (UserStake { claimed: true, ..s })
                &&& *final(state) == old(state).with_term(
                    s.stake_type,
                    old(state).pool_of(s.stake_type),
                    (old(state).staked_of(s.stake_type) - s.amount) as u64,
                    (old(state).released_of(s.stake_type) + s.amount + s.reward) as u64,
                )
            },
        },
{
    if user_stake.claimed {
        return Err(StakingErrorCode::AlreadyClaimed);
    }
    if now < user_stake.end_time {
        return Err(StakingErrorCode::StakeNotMatured);
    }
    let t: StakeType = user_stake.stake_type;
    let total_return: u64 = match user_stake.amount.checked_add(user_stake.reward) {
        Some(v) => v,
        None => {
            return Err(StakingErrorCode::MathOverflow);
        },
    };
    let staked: u64 = match state.staked(t).checked_sub(user_stake.amount) {
        Some(v) => v,
        None => {
            return Err(StakingErrorCode::MathOverflow);
        },
    };
    let released: u64 = match state.released(t).checked_add(total_return) {
        Some(v) => v,
        None => {
            return Err(StakingErrorCode::MathOverflow);
        },
    };
    let pool: u64 = state.pool(t);
    state.set_term(t, pool, staked, released);
    user_stake.claimed = true;
    Ok(
        ReleaseEvent {
            user: user_stake.owner,
            principal: user_stake.amount,
            reward: user_stake.reward,
            total: total_return,
        },
    )
}

/// Why an early withdrawal is rejected, if it is.
pub open spec fn early_withdraw_error(state: StakingState, s: UserStake, now: i64) -> Option<
    StakingErrorCode,
> {
    if s.claimed {
        Some(StakingErrorCode::AlreadyClaimed)
    } else if now >= s.end_time {
        Some(StakingErrorCode::StakeMaturedUseRelease)
    } else if state.staked_of(s.stake_type) < s.amount || state.pool_of(s.stake_type) + s.reward
        > u64::MAX {
        Some(StakingErrorCode::MathOverflow)
    } else {
        None
    }
}

/// Pays back a stake before it matures, without its reward, which returns to
/// the reward pool.
///
/// A rejected withdrawal leaves state and stake as they were.
pub fn early_withdraw(state: &mut StakingState, user_stake: &mut UserStake, now: i64) -> (r: Result<
    EarlyWithdrawEvent,
    StakingErrorCode,
>)
    ensures
        match early_withdraw_error(*old(state), *old(user_stake), now) {
            Some(e) => r == Err::<EarlyWithdrawEvent, StakingErrorCode>(e) && *final(state) == *old(
                state,
            ) && *final(user_stake) == *old(user_stake),
            None => {
                let s = *old(user_stake);
                &&& r == Ok::<EarlyWithdrawEvent, StakingErrorCode>(
                    EarlyWithdrawEvent {
                        user: s.owner,
                        principal: s.amount,
                        forfeited_reward: s.reward,
                    },
                )
                &&& *final(user_stake) == (UserStake { claimed: true, ..s })
                &&& *final(state) == old(state).with_term(
                    s.stake_type,
                    (old(state).pool_of(s.stake_type) + s.reward) as u64,
                    (old(state).staked_of(s.stake_type) - s.amount) as u64,
                    old(state).released_of(s.stake_type),
                )
            },
        },
{
    if user_stake.claimed {
        return Err(StakingErrorCode::AlreadyClaimed);
    }
    if now >= user_stake.end_time {
        return Err(StakingErrorCode::StakeMaturedUseRelease);
    }
    let t: StakeType = user_stake.stake_type;
    let staked: u64 = match state.staked(t).checked_sub(user_stake.amount) {
        Some(v) => v,
        None => {
            return Err(StakingErrorCode::MathOverflow);
        },
    };
    let pool: u64 = match state.pool(t).checked_add(user_stake.reward) {
        Some(v) => v,
        None => {
            return Err(StakingErrorCode::MathOverflow);
        },
    };
    let released: u64 = state.released(t);
    state.set_term(t, pool, staked, released);
    user_stake.claimed = true;
    Ok(
        EarlyWithdrawEvent {
            user: user_stake.owner,
            principal: user_stake.amount,
            forfeited_reward: user_stake.reward,
        },
    )
}

} // verus!
