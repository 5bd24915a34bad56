use vstd::prelude::*;
use crate::constants::BASE;
use crate::error::ErrorCode;

verus! {

/// The share `rate_bps / 10_000` of `amount`, rounded down.
pub open spec fn rate_share(amount: int, rate_bps: int) -> int {
    amount * rate_bps / 10_000
}

/// A rate of at most 100% never yields more than the amount, and a larger
/// amount never yields a smaller share.
pub proof fn lemma_rate_share_bounds(amount: int, rate_bps: int)
    requires
        0 <= amount,
        0 <= rate_bps <= 10_000,
    ensures
        0 <= rate_share(amount, rate_bps) <= amount,
        rate_share(amount, rate_bps) * 10_000 <= amount * rate_bps,
        amount * rate_bps < rate_share(amount, rate_bps) * 10_000 + 10_000,
{
    assert(0 <= amount * rate_bps <= amount * 10_000) by (nonlinear_arith)
        requires
            0 <= amount,
            0 <= rate_bps <= 10_000,
    ;
    let p: int = amount * rate_bps;
    assert(p == 10_000 * (p / 10_000) + p % 10_000) by (nonlinear_arith);
    assert(0 <= p % 10_000 < 10_000) by (nonlinear_arith);
}

/// The share of `amount` at a rate of at most 100%, which always fits.
pub fn share_of(amount: u64, rate_bps: u64) -> (share: u64)
    requires
        rate_bps <= 10_000,
    ensures
        share == rate_share(amount as int, rate_bps as int),
        share <= amount,
{
    proof {
        lemma_rate_share_bounds(amount as int, rate_bps as int);
        assert(0 <= (amount as int) * (rate_bps as int) <= 0xFFFF_FFFF_FFFF_FFFF * 10_000)
            by (nonlinear_arith)
            requires
                0 <= amount <= 0xFFFF_FFFF_FFFF_FFFF,
                0 <= rate_bps <= 10_000,
        ;
    }
    let product: u128 = (amount as u128) * (rate_bps as u128);
    (product / (BASE as u128)) as u64
}

/// `amount * rate_bps / 10_000` with a 128-bit intermediate, rounded down.
/// Fails only where the share itself does not fit in 64 bits, which takes a
/// rate above 100%.
pub fn apply_rate(amount: u64, rate_bps: u64) -> (r: Result<u64, ErrorCode>)
    ensures
        rate_share(amount as int, rate_bps as int) <= u64::MAX ==> r == Ok::<u64, ErrorCode>(
            rate_share(amount as int, rate_bps as int) as u64,
        ),
        rate_share(amount as int, rate_bps as int) > u64::MAX ==> r == Err::<u64, ErrorCode>(
            ErrorCode::MathOverflow,
        ),
        rate_bps <= 10_000 ==> r is Ok,
{
    assert(0 <= (amount as int) * (rate_bps as int) <= 0xFFFF_FFFF_FFFF_FFFF * 0xFFFF_FFFF_FFFF_FFFF)
        by (nonlinear_arith)
        requires
            0 <= amount <= 0xFFFF_FFFF_FFFF_FFFF,
            0 <= rate_bps <= 0xFFFF_FFFF_FFFF_FFFF,
    ;
    let product: u128 = (amount as u128) * (rate_bps as u128);
    let share: u128 = product / (BASE as u128);
    proof {
        if rate_bps <= 10_000 {
            lemma_rate_share_bounds(amount as int, rate_bps as int);
        }
    }
    if share > u64::MAX as u128 {
        Err(ErrorCode::MathOverflow)
    } else {
        Ok(share as u64)
    }
}

} // verus!
