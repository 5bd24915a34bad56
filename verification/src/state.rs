use vstd::prelude::*;
use crate::address::Address;
use crate::constants::{
    DURATION_30MIN, DURATION_DAILY, DURATION_HOURLY, MIN_30MIN, MIN_DAILY, MIN_HOURLY,
};
use crate::error::ErrorCode;

verus! {

/// The three pools, told apart by the length of their rounds.
#[derive(Clone, Copy, Debug, PartialEq, Eq, Structural)]
pub enum PoolType {
    Min30,
    Hourly,
    Daily,
}

impl PoolType {
    /// Length of one round in seconds.
    pub open spec fn spec_duration(&self) -> int {
        match self {
            PoolType::Min30 => 1_800,
            PoolType::Hourly => 3_600,
            PoolType::Daily => 86_400,
        }
    }

    /// Smallest regular deposit that the pool accepts.
    pub open spec fn spec_min_deposit(&self) -> int {
        match self {
            PoolType::Min30 => 500_000_000_000,
            PoolType::Hourly => 200_000_000_000,
            PoolType::Daily => 100_000_000_000,
        }
    }

    /// The identifier under which the pool is stored.
    pub open spec fn code(&self) -> u8 {
        match self {
            PoolType::Min30 => 0,
            PoolType::Hourly => 1,
            PoolType::Daily => 2,
        }
    }

    /// Length of one round in seconds.
    pub fn duration(&self) -> (d: i64)
        ensures
            d == self.spec_duration(),
    {
        match self {
            PoolType::Min30 => DURATION_30MIN,
            PoolType::Hourly => DURATION_HOURLY,
            PoolType::Daily => DURATION_DAILY,
        }
    }

    /// Smallest regular deposit that the pool accepts.
    pub fn min_deposit(&self) -> (m: u64)
        ensures
            m == self.spec_min_deposit(),
    {
        match self {
            PoolType::Min30 => MIN_30MIN,
            PoolType::Hourly => MIN_HOURLY,
            PoolType::Daily => MIN_DAILY,
        }
    }
}

/// The pool that an identifier names, if it names one.
pub open spec fn spec_pool_type(v: u8) -> Option<PoolType> {
    if v == 0 {
        Some(PoolType::Min30)
    } else if v == 1 {
        Some(PoolType::Hourly)
    } else if v == 2 {
        Some(PoolType::Daily)
    } else {
        None
    }
}

/// Decodes a pool identifier: 0, 1 and 2 name the three pools, anything else
/// is rejected.
pub fn pool_type_from_u8(v: u8) -> (r: Result<PoolType, ErrorCode>)
    ensures
        match spec_pool_type(v) {
            Some(pt) => r == Ok::<PoolType, ErrorCode>(pt) && pt.code() == v,
            None => r == Err::<PoolType, ErrorCode>(ErrorCode::InvalidPoolType),
        },
{
    match v {
        0 => Ok(PoolType::Min30),
        1 => Ok(PoolType::Hourly),
        2 => Ok(PoolType::Daily),
        _ => Err(ErrorCode::InvalidPoolType),
    }
}

/// Protocol-wide configuration, written once at set-up.
#[derive(Clone, Copy, Debug, PartialEq, Eq)]
pub struct GlobalState {
    pub token_mint: Address,
    pub platform_fee_vault: Address,
    pub airdrop_vault: Address,
    pub referral_vault: Address,
    pub reserve_vault: Address,
    pub prize_escrow_vault: Address,
    pub bump: u8,
}

/// The running round of one pool.
#[derive(Clone, Copy, Debug, PartialEq, Eq)]
pub struct PoolState {
    pub pool_type: u8,
    pub round_number: u64,
    pub round_start_time: i64,
    pub round_end_time: i64,
    /// Regular deposits of this round, matching bonus included.
    pub total_deposited: u64,
    /// Promotional credit of this round.
    pub free_bet_total: u64,
    pub regular_count: u32,
    pub free_count: u32,
    pub vault: Address,
    /// Carried over from the last successful draw; already in the vault.
    pub rollover: u64,
    pub bump: u8,
}

/// One regular deposit: at most one per user, pool and round.
#[derive(Clone, Copy, Debug, PartialEq, Eq)]
pub struct UserDeposit {
    pub user: Address,
    pub pool_type: u8,
    pub round_number: u64,
    pub amount: u64,
    /// Payout destination of the referrer; all-zero when there is none or
    /// once the referral has been paid.
    pub referrer: Address,
    pub bump: u8,
}

/// One promotional bet. It stays active over refunded rounds and is used up
/// by a successful draw.
#[derive(Clone, Copy, Debug, PartialEq, Eq)]
pub struct FreeDeposit {
    pub user: Address,
    pub pool_type: u8,
    pub is_active: bool,
    pub amount: u64,
    pub referrer: Address,
    pub bump: u8,
}

/// A user's one-time grant of a promotional bet.
#[derive(Clone, Copy, Debug, PartialEq, Eq)]
pub struct AirdropClaim {
    pub user: Address,
    pub free_bet_available: bool,
    pub bump: u8,
}

/// The record of one successful draw: the six top winners (first, two
/// second, three third), what each is owed and what each has received.
#[derive(Clone, Copy, Debug, PartialEq, Eq)]
pub struct DrawResult {
    pub pool_type: u8,
    pub round_number: u64,
    pub top_winners: [Address; 6],
    pub top_amounts: [u64; 6],
    pub top_claimed: [u64; 6],
    pub draw_timestamp: i64,
    pub bump: u8,
}

impl DrawResult {
    /// No slot has received more than it is owed.
    pub open spec fn wf(&self) -> bool {
        forall|i: int| 0 <= i < 6 ==> self.top_claimed[i] <= self.top_amounts[i]
    }
}

/// A beneficiary's vesting account.
#[derive(Clone, Copy, Debug, PartialEq, Eq)]
pub struct VestingAccount {
    pub beneficiary: Address,
    pub total_amount: u64,
    pub claimed_amount: u64,
    pub start_time: i64,
    pub bump: u8,
}

} // verus!
