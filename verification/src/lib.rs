//! Round lifecycle and draw engine of a pooled lottery: deposits, winner
//! selection, prize arithmetic, vesting claims and referral payouts, stated
//! over plain values so that every rule carries a proved contract.
//!
//! Nothing here moves tokens or reads a clock. Each operation takes the state
//! it works on and the time, and returns what is to be stored and paid; the
//! program around it carries that out.

pub mod address;
pub mod airdrop;
pub mod claims;
pub mod constants;
pub mod draw;
pub mod error;
pub mod events;
pub mod ledger;
pub mod participants;
pub mod prizes;
pub mod randomness;
pub mod rate;
pub mod refund;
pub mod round;
pub mod staking;
pub mod state;
pub mod winners;

pub use crate::address::Address;
pub use crate::constants::{
    BASE, BURN_RATE, DURATION_30MIN, DURATION_DAILY, DURATION_HOURLY, FREE_BET_AMOUNT, LOCK_PERIOD,
    MIN_30MIN, MIN_DAILY, MIN_HOURLY, MIN_PARTICIPANTS, PLAT_RATE, PRIZE_1ST_BP, PRIZE_2ND_EACH_BP,
    PRIZE_3RD_EACH_BP, PRIZE_LUCKY_EACH_BP, PRIZE_UNIVERSAL_BP, PRIZE_VEST_DAYS, PRIZE_VEST_DAY_BP,
    REFERRER_BP, ROLLOVER_BP, VESTING_DAYS, VESTING_RELEASE_PER_DAY,
};
pub use crate::error::ErrorCode;
pub use crate::events::{
    Deposited, DrawExecuted, FreeBetActivated, PrizeVestingClaimed, RoundRefunded,
};
pub use crate::state::{
    pool_type_from_u8, AirdropClaim, DrawResult, FreeDeposit, GlobalState, PoolState, PoolType,
    UserDeposit, VestingAccount,
};
