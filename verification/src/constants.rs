use vstd::prelude::*;

verus! {

/// Denominator of every basis-point rate.
pub const BASE: u64 = 10_000;

/// Share of the pool that is burned on a successful draw, in basis points.
pub const BURN_RATE: u64 = 300;

/// Share of the pool that goes to the platform, in basis points.
pub const PLAT_RATE: u64 = 200;

/// Share of the prize pool that stays in the vault for the next round.
pub const ROLLOVER_BP: u64 = 500;

/// Share of the distributable amount for the first prize (one winner).
pub const PRIZE_1ST_BP: u64 = 3000;

/// Share for each of the two second prizes.
pub const PRIZE_2ND_EACH_BP: u64 = 1000;

/// Share for each of the three third prizes.
pub const PRIZE_3RD_EACH_BP: u64 = 500;

/// Share for each of the five lucky prizes.
pub const PRIZE_LUCKY_EACH_BP: u64 = 200;

/// Share that all participants without a prize slot divide evenly.
pub const PRIZE_UNIVERSAL_BP: u64 = 2000;

/// Days over which a top prize unlocks, one twentieth per day.
pub const PRIZE_VEST_DAYS: u64 = 20;

/// Share of a top prize that unlocks per day, in basis points.
pub const PRIZE_VEST_DAY_BP: u64 = 500;

/// Share of a deposit that its referrer earns after a successful draw.
pub const REFERRER_BP: u64 = 800;

/// A round with fewer participants is refunded instead of drawn.
pub const MIN_PARTICIPANTS: u32 = 12;

/// Deposits close this many seconds before the round ends.
pub const LOCK_PERIOD: i64 = 300;

/// Seconds in a day.
pub const SECONDS_PER_DAY: i64 = 86_400;

/// Length of a round of the thirty-minute pool, in seconds.
pub const DURATION_30MIN: i64 = 1_800;

/// Length of a round of the hourly pool, in seconds.
pub const DURATION_HOURLY: i64 = 3_600;

/// Length of a round of the daily pool, in seconds.
pub const DURATION_DAILY: i64 = 86_400;

/// Smallest deposit into the thirty-minute pool.
pub const MIN_30MIN: u64 = 500_000_000_000;

/// Smallest deposit into the hourly pool.
pub const MIN_HOURLY: u64 = 200_000_000_000;

/// Smallest deposit into the daily pool.
pub const MIN_DAILY: u64 = 100_000_000_000;

/// Amount credited to the pool by one promotional bet.
pub const FREE_BET_AMOUNT: u64 = 100_000_000_000;

/// Days over which a beneficiary's vesting account unlocks.
pub const VESTING_DAYS: u64 = 20;

/// Share of a vesting account that unlocks per elapsed day, in basis points.
pub const VESTING_RELEASE_PER_DAY: u64 = 500;

} // verus!
