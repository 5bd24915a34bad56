use vstd::prelude::*;
use crate::address::Address;

verus! {

/// What a successful draw did.
#[derive(Clone, Copy, Debug, PartialEq, Eq)]
pub struct DrawExecuted {
    pub pool_type: u8,
    pub round_number: u64,
    pub total_pool: u64,
    pub participant_count: u32,
    /// Winners in the order first, second (two), third (three).
    pub top_winners: [Address; 6],
    /// What each top winner is owed in full; it unlocks over twenty days.
    pub top_amounts: [u64; 6],
    pub lucky_winners: [Address; 5],
    pub lucky_amount_each: u64,
    pub universal_count: u32,
    pub universal_amount_each: u64,
    pub burn_amount: u64,
    pub platform_amount: u64,
    pub rollover_amount: u64,
    pub draw_seed: [u8; 32],
    pub timestamp: i64,
}

/// What a refund did.
#[derive(Clone, Copy, Debug, PartialEq, Eq)]
pub struct RoundRefunded {
    pub pool_type: u8,
    pub round_number: u64,
    pub regular_refunded: u32,
    pub free_carried_over: u32,
    pub total_refunded: u64,
    pub timestamp: i64,
}

/// A regular deposit that was accepted.
#[derive(Clone, Copy, Debug, PartialEq, Eq)]
pub struct Deposited {
    pub pool_type: u8,
    pub round_number: u64,
    pub user: Address,
    pub amount: u64,
    /// What the reserve added on top: zero outside the daily pool.
    pub matched: u64,
    pub timestamp: i64,
}

/// A promotional bet that was activated.
#[derive(Clone, Copy, Debug, PartialEq, Eq)]
pub struct FreeBetActivated {
    pub pool_type: u8,
    pub user: Address,
    pub timestamp: i64,
}

/// One payment out of the prize escrow.
#[derive(Clone, Copy, Debug, PartialEq, Eq)]
pub struct PrizeVestingClaimed {
    pub pool_type: u8,
    pub round_number: u64,
    pub winner_index: u8,
    pub winner: Address,
    pub claimed_amount: u64,
    pub total_claimed: u64,
    pub total_prize: u64,
    pub timestamp: i64,
}

} // verus!
