use vstd::prelude::*;
use crate::constants::{
    BURN_RATE, PLAT_RATE, PRIZE_1ST_BP, PRIZE_2ND_EACH_BP, PRIZE_3RD_EACH_BP, PRIZE_LUCKY_EACH_BP,
    PRIZE_UNIVERSAL_BP, ROLLOVER_BP,
};
use crate::rate::{lemma_rate_share_bounds, rate_share, share_of};

verus! {

/// What is burned: 3% of the pool.
pub open spec fn burn_of(total_pool: int) -> int {
    rate_share(total_pool, 300)
}

/// The platform fee: 2% of the pool.
pub open spec fn fee_of(total_pool: int) -> int {
    rate_share(total_pool, 200)
}

/// The pool after burn and fee.
pub open spec fn prize_pool_of(total_pool: int) -> int {
    total_pool - burn_of(total_pool) - fee_of(total_pool)
}

/// What stays in the vault for the next round: 5% of the prize pool.
pub open spec fn rollover_of(total_pool: int) -> int {
    rate_share(prize_pool_of(total_pool), 500)
}

/// The prize pool without the rollover: the base of every tier.
pub open spec fn distributable_of(total_pool: int) -> int {
    prize_pool_of(total_pool) - rollover_of(total_pool)
}

/// The amount of a tier with the given rate.
pub open spec fn tier_of(total_pool: int, rate_bps: int) -> int {
    rate_share(distributable_of(total_pool), rate_bps)
}

/// What goes to escrow: the first prize, two second and three third prizes.
pub open spec fn top_total_of(total_pool: int) -> int {
    tier_of(total_pool, 3000) + 2 * tier_of(total_pool, 1000) + 3 * tier_of(total_pool, 500)
}

/// The participants without a prize slot.
pub open spec fn universal_count_of(total_count: int) -> int {
    if total_count > 11 {
        total_count - 11
    } else {
        0
    }
}

/// What each participant without a prize slot receives: an even part of the
/// universal tier, or nothing where there is no such participant.
pub open spec fn universal_each_of(total_pool: int, total_count: int) -> int {
    if universal_count_of(total_count) > 0 {
        tier_of(total_pool, 2000) / universal_count_of(total_count)
    } else {
        0
    }
}

/// Everything that a draw moves out of the pool or sets aside: burn, fee,
/// rollover, escrow, five lucky prizes and the universal payments.
pub open spec fn paid_out_of(total_pool: int, total_count: int) -> int {
    burn_of(total_pool) + fee_of(total_pool) + rollover_of(total_pool) + top_total_of(total_pool)
        + 5 * tier_of(total_pool, 200) + universal_count_of(total_count) * universal_each_of(
        total_pool,
        total_count,
    )
}

/// The part of the distributable amount that no tier takes: the tiers' rates
/// add up to 95%, and each tier rounds down.
pub open spec fn untiered_of(total_pool: int) -> int {
    distributable_of(total_pool) - top_total_of(total_pool) - 5 * tier_of(total_pool, 200)
        - tier_of(total_pool, 2000)
}

/// What the even division of the universal tier leaves over.
pub open spec fn universal_remainder_of(total_pool: int, total_count: int) -> int {
    tier_of(total_pool, 2000) - universal_count_of(total_count) * universal_each_of(
        total_pool,
        total_count,
    )
}

/// The amounts of one draw.
#[derive(Clone, Copy, Debug, PartialEq, Eq)]
pub struct PrizeSplit {
    pub total_pool: u64,
    pub burn_amount: u64,
    pub platform_amount: u64,
    pub rollover_amount: u64,
    pub distributable: u64,
    pub prize_1st: u64,
    pub prize_2nd_each: u64,
    pub prize_3rd_each: u64,
    pub prize_lucky_each: u64,
    pub prize_universal_total: u64,
    pub universal_count: u32,
    pub prize_universal_each: u64,
    pub top_prize_total: u64,
}

impl PrizeSplit {
    /// The split holds exactly the amounts that the rules give for this pool
    /// and this number of participants.
    pub open spec fn is_split_of(&self, total_pool: int, total_count: int) -> bool {
        &&& self.total_pool == total_pool
        &&& self.burn_amount == burn_of(total_pool)
        &&& self.platform_amount == fee_of(total_pool)
        &&& self.rollover_amount == rollover_of(total_pool)
        &&& self.distributable == distributable_of(total_pool)
        &&& self.prize_1st == tier_of(total_pool, 3000)
        &&& self.prize_2nd_each == tier_of(total_pool, 1000)
        &&& self.prize_3rd_each == tier_of(total_pool, 500)
        &&& self.prize_lucky_each == tier_of(total_pool, 200)
        &&& self.prize_universal_total == tier_of(total_pool, 2000)
        &&& self.universal_count == universal_count_of(total_count)
        &&& self.prize_universal_each == universal_each_of(total_pool, total_count)
        &&& self.top_prize_total == top_total_of(total_pool)
    }

    /// Everything that the draw moves out of the pool or sets aside.
    pub open spec fn paid_out(&self) -> int {
        self.burn_amount + self.platform_amount + self.rollover_amount + self.top_prize_total + 5
            * self.prize_lucky_each + self.universal_count * self.prize_universal_each
    }
}

/// Burn, fee, rollover and the distributable amount add up to the pool, with
/// nothing lost, and none of them is negative.
pub proof fn lemma_pool_partition(total_pool: int)
    requires
        0 <= total_pool,
    ensures
        total_pool == burn_of(total_pool) + fee_of(total_pool) + rollover_of(total_pool)
            + distributable_of(total_pool),
        0 <= burn_of(total_pool),
        0 <= fee_of(total_pool),
        0 <= rollover_of(total_pool),
        0 <= distributable_of(total_pool) <= prize_pool_of(total_pool) <= total_pool,
{
    lemma_rate_share_bounds(total_pool, 300);
    lemma_rate_share_bounds(total_pool, 200);
    assert(burn_of(total_pool) * 10_000 <= total_pool * 300);
    assert(fee_of(total_pool) * 10_000 <= total_pool * 200);
    lemma_rate_share_bounds(prize_pool_of(total_pool), 500);
}

/// The tiers never take more than the distributable amount, and what they
/// leave is one twentieth of it, up to twelve units of rounding.
pub proof fn lemma_tiers_within_distributable(total_pool: int)
    requires
        0 <= total_pool,
    ensures
        0 <= tier_of(total_pool, 3000),
        0 <= tier_of(total_pool, 1000),
        0 <= tier_of(total_pool, 500),
        0 <= tier_of(total_pool, 200),
        0 <= tier_of(total_pool, 2000),
        0 <= untiered_of(total_pool),
        500 * distributable_of(total_pool) <= 10_000 * untiered_of(total_pool),
        10_000 * untiered_of(total_pool) <= 500 * distributable_of(total_pool) + 12 * 9_999,
{
    lemma_pool_partition(total_pool);
    let d = distributable_of(total_pool);
    lemma_rate_share_bounds(d, 3000);
    lemma_rate_share_bounds(d, 1000);
    lemma_rate_share_bounds(d, 500);
    lemma_rate_share_bounds(d, 200);
    lemma_rate_share_bounds(d, 2000);
}

/// The even division of the universal tier hands out no more than the tier,
/// and leaves less than one unit per recipient.
pub proof fn lemma_universal_remainder(total_pool: int, total_count: int)
    requires
        0 <= total_pool,
    ensures
        0 <= universal_each_of(total_pool, total_count),
        0 <= universal_remainder_of(total_pool, total_count) <= tier_of(total_pool, 2000),
        universal_count_of(total_count) > 0 ==> universal_remainder_of(total_pool, total_count)
            < universal_count_of(total_count),
{
    lemma_tiers_within_distributable(total_pool);
    let u = tier_of(total_pool, 2000);
    let c = universal_count_of(total_count);
    if c > 0 {
        assert(0 <= c * (u / c) <= u && u - c * (u / c) < c && 0 <= u / c) by (nonlinear_arith)
            requires
                0 <= u,
                0 < c,
        ;
    }
}

/// A draw never pays out more than the pool holds.
pub proof fn lemma_draw_never_overpays(total_pool: int, total_count: int)
    requires
        0 <= total_pool,
    ensures
        0 <= paid_out_of(total_pool, total_count) <= total_pool,
{
    lemma_draw_shortfall(total_pool, total_count);
    lemma_pool_partition(total_pool);
    lemma_tiers_within_distributable(total_pool);
    lemma_universal_remainder(total_pool, total_count);
    let c = universal_count_of(total_count);
    let e = universal_each_of(total_pool, total_count);
    assert(0 <= c * e) by (nonlinear_arith)
        requires
            0 <= c,
            0 <= e,
    ;
}

/// What a draw leaves in the pool beyond the rollover is exactly the part of
/// the distributable amount that no tier takes plus the remainder of the
/// universal division.
pub proof fn lemma_draw_shortfall(total_pool: int, total_count: int)
    requires
        0 <= total_pool,
    ensures
        total_pool - paid_out_of(total_pool, total_count) == untiered_of(total_pool)
            + universal_remainder_of(total_pool, total_count),
        0 <= untiered_of(total_pool) + universal_remainder_of(total_pool, total_count),
{
    lemma_pool_partition(total_pool);
    lemma_tiers_within_distributable(total_pool);
    lemma_universal_remainder(total_pool, total_count);
}

/// Conservation of a draw: burn, fee, rollover, escrow, lucky and universal
/// payments together never exceed the pool. What stays behind is the
/// twentieth of the distributable amount that no tier takes, up to twelve
/// units that the tiers round away and less than one unit for each
/// participant who shares the universal tier.
pub proof fn lemma_draw_conservation(total_pool: int, total_count: int)
    requires
        0 <= total_pool,
        12 <= total_count,
    ensures
        paid_out_of(total_pool, total_count) <= total_pool,
        10_000 * (total_pool - paid_out_of(total_pool, total_count)) <= 500 * distributable_of(
            total_pool,
        ) + 12 * 9_999 + 10_000 * universal_count_of(total_count),
        500 * distributable_of(total_pool) <= 10_000 * (total_pool - paid_out_of(
            total_pool,
            total_count,
        )),
{
    lemma_draw_shortfall(total_pool, total_count);
    lemma_tiers_within_distributable(total_pool);
    lemma_universal_remainder(total_pool, total_count);
}

/// Computes the amounts of a draw over `total_pool` with `total_count`
/// participants, each tier rounded down from the distributable amount.
pub fn split_prizes(total_pool: u64, total_count: u32) -> (split: PrizeSplit)
    ensures
        split.is_split_of(total_pool as int, total_count as int),
        split.paid_out() == paid_out_of(total_pool as int, total_count as int),
        split.paid_out() <= total_pool,
        split.top_prize_total + 5 * split.prize_lucky_each + split.prize_universal_total
            <= split.distributable,
{
    proof {
        lemma_pool_partition(total_pool as int);
        lemma_tiers_within_distributable(total_pool as int);
        lemma_universal_remainder(total_pool as int, total_count as int);
        lemma_draw_never_overpays(total_pool as int, total_count as int);
    }
    let burn_amount: u64 = share_of(total_pool, BURN_RATE);
    let platform_amount: u64 = share_of(total_pool, PLAT_RATE);
    let prize_pool: u64 = total_pool - burn_amount - platform_amount;
    let rollover_amount: u64 = share_of(prize_pool, ROLLOVER_BP);
    let distributable: u64 = prize_pool - rollover_amount;
    let prize_1st: u64 = share_of(distributable, PRIZE_1ST_BP);
    let prize_2nd_each: u64 = share_of(distributable, PRIZE_2ND_EACH_BP);
    let prize_3rd_each: u64 = share_of(distributable, PRIZE_3RD_EACH_BP);
    let prize_lucky_each: u64 = share_of(distributable, PRIZE_LUCKY_EACH_BP);
    let prize_universal_total: u64 = share_of(distributable, PRIZE_UNIVERSAL_BP);
    let universal_count: u32 = if total_count > 11 {
        total_count - 11
    } else {
        0
    };
    let prize_universal_each: u64 = if universal_count > 0 {
        prize_universal_total / (universal_count as u64)
    } else {
        0
    };
    let top_prize_total: u64 = prize_1st + 2 * prize_2nd_each + 3 * prize_3rd_each;
    PrizeSplit {
        total_pool,
        burn_amount,
        platform_amount,
        rollover_amount,
        distributable,
        prize_1st,
        prize_2nd_each,
        prize_3rd_each,
        prize_lucky_each,
        prize_universal_total,
        universal_count,
        prize_universal_each,
        top_prize_total,
    }
}

} // verus!
