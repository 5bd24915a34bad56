use vstd::prelude::*;
use crate::address::Address;

verus! {

/// A user may claim this many times their recorded profit.
pub const AIRDROP_CLAIM_MULTIPLIER: u64 = 10;

/// No user can be eligible for more than this.
pub const MAX_AIRDROP_PER_USER: u64 = 10_000_000_000_000;

/// A claim takes at least this much recorded profit.
pub const MIN_PROFIT_TO_CLAIM: u64 = 1_000_000_000;

/// Why an operation of the profit airdrop was rejected.
#[derive(Clone, Copy, Debug, PartialEq, Eq, Structural)]
pub enum AirdropErrorCode {
    /// The profit to record is zero.
    InvalidProfit,
    /// The user has no recorded profit.
    NotParticipated,
    /// The recorded profit is below what a claim takes.
    InsufficientProfit,
    /// The user has claimed already.
    AlreadyClaimedAirdrop,
    /// The user is eligible for nothing.
    NoEligibleAirdrop,
    /// The budget is used up.
    AirdropExhausted,
    /// An amount or a counter left its integer range.
    MathOverflow,
}

/// The airdrop budget and what was claimed of it.
#[derive(Clone, Copy, Debug, PartialEq, Eq)]
pub struct AirdropState {
    pub authority: Address,
    pub token_mint: Address,
    pub total_airdrop: u64,
    pub claimed_amount: u64,
    pub remaining_amount: u64,
    pub participant_count: u32,
    pub claimed_count: u32,
    pub bump: u8,
}

/// One user's recorded profit and claim.
#[derive(Clone, Copy, Debug, PartialEq, Eq)]
pub struct UserAirdrop {
    pub owner: Address,
    pub has_participated: bool,
    pub first_participation_time: i64,
    pub total_profit: u64,
    pub eligible_airdrop: u64,
    pub has_claimed: bool,
    pub claimed_amount: u64,
    pub claim_time: i64,
}

/// The airdrop was opened.
#[derive(Clone, Copy, Debug, PartialEq, Eq)]
pub struct AirdropInitialized {
    pub total_airdrop: u64,
}

/// A profit was recorded.
#[derive(Clone, Copy, Debug, PartialEq, Eq)]
pub struct ProfitRecorded {
    pub user: Address,
    pub profit_amount: u64,
    pub total_profit: u64,
    pub eligible_airdrop: u64,
}

/// An airdrop was claimed. `amount` is what moves from the vault to the user.
#[derive(Clone, Copy, Debug, PartialEq, Eq)]
pub struct AirdropClaimed {
    pub user: Address,
    pub amount: u64,
    pub profit_based_on: u64,
}

/// The sum of two amounts, held at the largest 64-bit value.
pub open spec fn capped_sum(a: u64, b: u64) -> u64 {
    if a + b > u64::MAX {
        u64::MAX
    } else {
        (a + b) as u64
    }
}

/// What a recorded profit makes a user eligible for: ten times the profit,
/// at most the cap per user, less what the user has claimed already.
pub open spec fn eligible_for(total_profit: u64, has_claimed: bool, claimed_amount: u64) -> int {
    let calculated = if total_profit * 10 < 10_000_000_000_000 {
        total_profit * 10
    } else {
        10_000_000_000_000
    };
    let already = if has_claimed {
        claimed_amount as int
    } else {
        0
    };
    if calculated > already {
        calculated - already
    } else {
        0
    }
}

/// Why a profit cannot be recorded, if it cannot.
pub open spec fn record_error(state: AirdropState, u: UserAirdrop, profit_amount: u64) -> Option<
    AirdropErrorCode,
> {
    if profit_amount == 0 {
        Some(AirdropErrorCode::InvalidProfit)
    } else if !u.has_participated && state.participant_count + 1 > u32::MAX {
        Some(AirdropErrorCode::MathOverflow)
    } else if capped_sum(u.total_profit, profit_amount) * 10 > u64::MAX {
        Some(AirdropErrorCode::MathOverflow)
    } else {
        None
    }
}

/// Opens the airdrop with its budget.
pub fn initialize_airdrop(authority: Address, token_mint: Address, total_airdrop: u64, bump: u8) -> (r:
    (AirdropState, AirdropInitialized))
    ensures
        r.0 == (AirdropState {
            authority,
            token_mint,
            total_airdrop,
            claimed_amount: 0,
            remaining_amount: total_airdrop,
            participant_count: 0,
            claimed_count: 0,
            bump,
        }),
        r.1 == (AirdropInitialized { total_airdrop }),
{
    (
        AirdropState {
            authority,
            token_mint,
            total_airdrop,
            claimed_amount: 0,
            remaining_amount: total_airdrop,
            participant_count: 0,
            claimed_count: 0,
            bump,
        },
        AirdropInitialized { total_airdrop },
    )
}

/// Adds a profit to a user's record and works out anew what the user may
/// claim. The first profit of a user registers them as a participant.
///
/// A rejected call leaves state and record as they were.
pub fn record_profit(
    state: &mut AirdropState,
    user_airdrop: &mut UserAirdrop,
    user: Address,
    profit_amount: u64,
    now: i64,
) -> (r: Result<ProfitRecorded, AirdropErrorCode>)
    ensures
        match record_error(*old(state), *old(user_airdrop), profit_amount) {
            Some(e) => r == Err::<ProfitRecorded, AirdropErrorCode>(e) && *final(state) == *old(
                state,
            ) && *final(user_airdrop) == *old(user_airdrop),
            None => {
                let u = *old(user_airdrop);
                let total = capped_sum(u.total_profit, profit_amount);
                let eligible = eligible_for(total, u.has_claimed, u.claimed_amount) as u64;
                &&& r == Ok::<ProfitRecorded, AirdropErrorCode>(
                    ProfitRecorded {
                        user,
                        profit_amount,
                        total_profit: total,
                        eligible_airdrop: eligible,
                    },
                )
                &&& *final(user_airdrop) == if u.has_participated {
                    UserAirdrop { total_profit: total, eligible_airdrop: eligible, ..u }
                } else {
                    UserAirdrop {
                        owner: user,
                        has_participated: true,
                        first_participation_time: now,
                        total_profit: total,
                        eligible_airdrop: eligible,
                        ..u
                    }
                }
                &&& *final(state) == if u.has_participated {
                    *old(state)
                } else {
                    AirdropState {
                        participant_count: (old(state).participant_count + 1) as u32,
                        ..*old(state)
                    }
                }
            },
        },
{
    if profit_amount == 0 {
        return Err(AirdropErrorCode::InvalidProfit);
    }
    let first_time: bool = !user_airdrop.has_participated;
    let participants: u32 = if first_time {
        match state.participant_count.checked_add(1) {
            Some(v) => v,
            None => {
                return Err(AirdropErrorCode::MathOverflow);
            },
        }
    } else {
        state.participant_count
    };
    let total_profit: u64 = user_airdrop.total_profit.saturating_add(profit_amount);
    let multiplied: u64 = match total_profit.checked_mul(AIRDROP_CLAIM_MULTIPLIER) {
        Some(v) => v,
        None => {
            return Err(AirdropErrorCode::MathOverflow);
        },
    };
    let calculated: u64 = if multiplied < MAX_AIRDROP_PER_USER {
        multiplied
    } else {
        MAX_AIRDROP_PER_USER
    };
    let already_claimed: u64 = if user_airdrop.has_claimed {
        user_airdrop.claimed_amount
    } else {
        0
    };
    let eligible: u64 = calculated.saturating_sub(already_claimed);
    if first_time {
        user_airdrop.has_participated = true;
        user_airdrop.first_participation_time = now;
        user_airdrop.owner = user;
        state.participant_count = participants;
    }
    user_airdrop.total_profit = total_profit;
    user_airdrop.eligible_airdrop = eligible;
    Ok(ProfitRecorded { user, profit_amount, total_profit, eligible_airdrop: eligible })
}

/// What a claim pays: what the user is eligible for, as far as the budget
/// reaches.
pub open spec fn claim_amount_of(state: AirdropState, u: UserAirdrop) -> u64 {
    if u.eligible_airdrop <= state.remaining_amount {
        u.eligible_airdrop
    } else {
        state.remaining_amount
    }
}

/// Why a claim is rejected, if it is.
pub open spec fn claim_error(state: AirdropState, u: UserAirdrop) -> Option<AirdropErrorCode> {
    if !u.has_participated {
        Some(AirdropErrorCode::NotParticipated)
    } else if u.has_claimed {
        Some(AirdropErrorCode::AlreadyClaimedAirdrop)
    } else if u.total_profit < 1_000_000_000 {
        Some(AirdropErrorCode::InsufficientProfit)
    } else if u.eligible_airdrop == 0 {
        Some(AirdropErrorCode::NoEligibleAirdrop)
    } else if claim_amount_of(state, u) == 0 {
        Some(AirdropErrorCode::AirdropExhausted)
    } else if state.claimed_amount + claim_amount_of(state, u) > u64::MAX || state.claimed_count + 1
        > u32::MAX {
        Some(AirdropErrorCode::MathOverflow)
    } else {
        None
    }
}

/// Pays a user's airdrop, once: what they are eligible for, as far as the
/// budget reaches.
///
/// A rejected claim leaves state and record as they were.
pub fn claim_profit_airdrop(state: &mut AirdropState, user_airdrop: &mut UserAirdrop, now: i64) -> (r:
    Result<AirdropClaimed, AirdropErrorCode>)
    ensures
        match claim_error(*old(state), *old(user_airdrop)) {
            Some(e) => r == Err::<AirdropClaimed, AirdropErrorCode>(e) && *final(state) == *old(
                state,
            ) && *final(user_airdrop) == *old(user_airdrop),
            None => {
                let u = *old(user_airdrop);
                let amount = claim_amount_of(*old(state), u);
                &&& r == Ok::<AirdropClaimed, AirdropErrorCode>(
                    AirdropClaimed { user: u.owner, amount, profit_based_on: u.total_profit },
                )
                &&& *final(user_airdrop) == (UserAirdrop {
                    has_claimed: true,
                    claimed_amount: amount,
                    claim_time: now,
                    ..u
                })
                &&& *final(state) == (AirdropState {
                    claimed_amount: (old(state).claimed_amount + amount) as u64,
                    remaining_amount: (old(state).remaining_amount - amount) as u64,
                    claimed_count: (old(state).claimed_count + 1) as u32,
                    ..*old(state)
                })
            },
        },
{
    if !user_airdrop.has_participated {
        return Err(AirdropErrorCode::NotParticipated);
    }
    if user_airdrop.has_claimed {
        return Err(AirdropErrorCode::AlreadyClaimedAirdrop);
    }
    if user_airdrop.total_profit < MIN_PROFIT_TO_CLAIM {
        return Err(AirdropErrorCode::InsufficientProfit);
    }
    if user_airdrop.eligible_airdrop == 0 {
        return Err(AirdropErrorCode::NoEligibleAirdrop);
    }
    let claim_amount: u64 = if user_airdrop.eligible_airdrop <= state.remaining_amount {
        user_airdrop.eligible_airdrop
    } else {
        state.remaining_amount
    };
    if claim_amount == 0 {
        return Err(AirdropErrorCode::AirdropExhausted);
    }
    let claimed: u64 = match state.claimed_amount.checked_add(claim_amount) {
        Some(v) => v,
        None => {
            return Err(AirdropErrorCode::MathOverflow);
        },
    };
    let count: u32 = match state.claimed_count.checked_add(1) {
        Some(v) => v,
        None => {
            return Err(AirdropErrorCode::MathOverflow);
        },
    };
    user_airdrop.has_claimed = true;
    user_airdrop.claimed_amount = claim_amount;
    user_airdrop.claim_time = now;
    state.claimed_amount = claimed;
    state.remaining_amount = state.remaining_amount - claim_amount;
    state.claimed_count = count;
    Ok(
        AirdropClaimed {
            user: user_airdrop.owner,
            amount: claim_amount,
            profit_based_on: user_airdrop.total_profit,
        },
    )
}

} // verus!
