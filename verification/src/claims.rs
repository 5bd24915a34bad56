use vstd::prelude::*;
use crate::address::Address;
use crate::constants::{
    PRIZE_VEST_DAYS, REFERRER_BP, SECONDS_PER_DAY, VESTING_DAYS, VESTING_RELEASE_PER_DAY,
};
use crate::error::ErrorCode;
use crate::events::PrizeVestingClaimed;
use crate::rate::{rate_share, share_of};
use crate::state::{DrawResult, UserDeposit, VestingAccount};

verus! {

/// Whole days between `start` and `now`; a reading before `start` counts as
/// day zero.
pub open spec fn elapsed_days(now: i64, start: i64) -> int {
    if now >= start {
        (now - start) / 86_400
    } else {
        0
    }
}

/// The days of a top prize that have unlocked: the day of the draw counts as
/// the first, and after twenty days everything has.
pub open spec fn prize_vested_days(now: i64, draw_timestamp: i64) -> int {
    if elapsed_days(now, draw_timestamp) + 1 < 20 {
        elapsed_days(now, draw_timestamp) + 1
    } else {
        20
    }
}

/// The part of a top prize that has unlocked, rounded down.
pub open spec fn prize_vested(total_amount: u64, now: i64, draw_timestamp: i64) -> int {
    total_amount * prize_vested_days(now, draw_timestamp) / 20
}

/// Why a claim of a top prize is rejected, if it is.
pub open spec fn prize_claim_error(
    draw: DrawResult,
    winner_index: u8,
    token_owner: Address,
    now: i64,
) -> Option<ErrorCode> {
    let wi = winner_index as int;
    if winner_index >= 6 {
        Some(ErrorCode::InvalidWinnerIndex)
    } else if draw.top_claimed[wi] >= draw.top_amounts[wi] {
        Some(ErrorCode::AlreadyFullyClaimed)
    } else if token_owner != draw.top_winners[wi] {
        Some(ErrorCode::WinnerTokenMismatch)
    } else if draw.top_amounts[wi] * prize_vested_days(now, draw.draw_timestamp) > u64::MAX {
        Some(ErrorCode::MathOverflow)
    } else if prize_vested(draw.top_amounts[wi], now, draw.draw_timestamp) <= draw.top_claimed[wi] {
        Some(ErrorCode::BelowMinimum)
    } else {
        None
    }
}

/// What has unlocked is never more than the prize.
pub proof fn lemma_prize_vested_bounds(total_amount: u64, now: i64, draw_timestamp: i64)
    ensures
        1 <= prize_vested_days(now, draw_timestamp) <= 20,
        0 <= prize_vested(total_amount, now, draw_timestamp) <= total_amount,
        elapsed_days(now, draw_timestamp) >= 19 ==> prize_vested(total_amount, now, draw_timestamp)
            == total_amount,
{
    let e = elapsed_days(now, draw_timestamp);
    if now >= draw_timestamp {
        let span: int = now - draw_timestamp;
        assert(0 <= span / 86_400);
    }
    let d = prize_vested_days(now, draw_timestamp);
    let t = total_amount as int;
    assert(0 <= t * d / 20 <= t) by (nonlinear_arith)
        requires
            0 <= t,
            1 <= d <= 20,
    ;
    if e >= 19 {
        assert(d == 20);
        assert(t * 20 / 20 == t);
    }
}

/// What has unlocked never shrinks as time goes on.
pub proof fn lemma_prize_vested_monotonic(total_amount: u64, earlier: i64, later: i64, start: i64)
    requires
        earlier <= later,
    ensures
        prize_vested(total_amount, earlier, start) <= prize_vested(total_amount, later, start),
{
    let d1 = prize_vested_days(earlier, start);
    let d2 = prize_vested_days(later, start);
    if earlier >= start {
        let s1: int = earlier - start;
        let s2: int = later - start;
        assert(s1 / 86_400 <= s2 / 86_400);
    } else if later >= start {
        let s2: int = later - start;
        assert(0 <= s2 / 86_400);
    }
    assert(d1 <= d2);
    let t = total_amount as int;
    assert(t * d1 / 20 <= t * d2 / 20) by (nonlinear_arith)
        requires
            0 <= t,
            0 <= d1 <= d2,
    ;
}

/// Whole days between `start` and `now`, capped at `cap`.
fn days_since(now: i64, start: i64, cap: u64) -> (days: u64)
    ensures
        days == if elapsed_days(now, start) < cap {
            elapsed_days(now, start)
        } else {
            cap as int
        },
{
    if now < start {
        return 0;
    }
    let span: i128 = (now as i128) - (start as i128);
    let days: i128 = span / (SECONDS_PER_DAY as i128);
    if days < cap as i128 {
        days as u64
    } else {
        cap
    }
}

/// Pays out what has unlocked of a top prize and was not paid before. One
/// twentieth unlocks per day, the first on the day of the draw:
/// `total * min(elapsed_days + 1, 20) / 20`. The slot's claimed amount grows
/// by exactly what is paid, so it never passes the prize, however often and
/// in whatever order claims arrive.
///
/// `token_owner` is the owner of the account that would receive the payment;
/// it must be the recorded winner. A rejected claim leaves the record as it
/// was.
pub fn claim_prize_vesting(
    draw: &mut DrawResult,
    winner_index: u8,
    token_owner: Address,
    now: i64,
) -> (r: Result<PrizeVestingClaimed, ErrorCode>)
    ensures
        match prize_claim_error(*old(draw), winner_index, token_owner, now) {
            Some(e) => r == Err::<PrizeVestingClaimed, ErrorCode>(e) && *final(draw) == *old(draw),
            None => {
                let wi = winner_index as int;
                let vested = prize_vested(old(draw).top_amounts[wi], now, old(draw).draw_timestamp);
                &&& r == Ok::<PrizeVestingClaimed, ErrorCode>(
                    PrizeVestingClaimed {
                        pool_type: old(draw).pool_type,
                        round_number: old(draw).round_number,
                        winner_index,
                        winner: old(draw).top_winners[wi],
                        claimed_amount: (vested - old(draw).top_claimed[wi]) as u64,
                        total_claimed: vested as u64,
                        total_prize: old(draw).top_amounts[wi],
                        timestamp: now,
                    },
                )
                &&& final(draw).top_claimed@ == old(draw).top_claimed@.update(wi, vested as u64)
                &&& final(draw).top_claimed[wi] == old(draw).top_claimed[wi] + r.unwrap().claimed_amount
                &&& r.unwrap().claimed_amount > 0
                &&& final(draw).top_claimed[wi] <= final(draw).top_amounts[wi]
                &&& final(draw).pool_type == old(draw).pool_type
                &&& final(draw).round_number == old(draw).round_number
                &&& final(draw).top_winners == old(draw).top_winners
                &&& final(draw).top_amounts == old(draw).top_amounts
                &&& final(draw).draw_timestamp == old(draw).draw_timestamp
                &&& final(draw).bump == old(draw).bump
            },
        },
        old(draw).wf() ==> final(draw).wf(),
        forall|i: int| 0 <= i < 6 ==> old(draw).top_claimed[i] <= final(draw).top_claimed[i],
{
    let wi: usize = winner_index as usize;
    if wi >= 6 {
        return Err(ErrorCode::InvalidWinnerIndex);
    }
    let total_amount: u64 = draw.top_amounts[wi];
    let already_claimed: u64 = draw.top_claimed[wi];
    if already_claimed >= total_amount {
        return Err(ErrorCode::AlreadyFullyClaimed);
    }
    if !token_owner.same(&draw.top_winners[wi]) {
        return Err(ErrorCode::WinnerTokenMismatch);
    }
    let elapsed: u64 = days_since(now, draw.draw_timestamp, PRIZE_VEST_DAYS - 1);
    let vested_days: u64 = elapsed + 1;
    assert(vested_days == prize_vested_days(now, draw.draw_timestamp));
    let scaled: u64 = match total_amount.checked_mul(vested_days) {
        Some(v) => v,
        None => {
            return Err(ErrorCode::MathOverflow);
        },
    };
    let vested_amount: u64 = scaled / PRIZE_VEST_DAYS;
    proof {
        lemma_prize_vested_bounds(total_amount, now, draw.draw_timestamp);
    }
    if vested_amount <= already_claimed {
        return Err(ErrorCode::BelowMinimum);
    }
    let claimable: u64 = vested_amount - already_claimed;
    draw.top_claimed[wi] = already_claimed + claimable;
    assert forall|i: int| 0 <= i < 6 implies old(draw).top_claimed[i] <= draw.top_claimed[i] by {
        if i != wi {
            assert(draw.top_claimed@[i] == old(draw).top_claimed@[i]);
        }
    }
    assert(old(draw).wf() ==> draw.wf()) by {
        if old(draw).wf() {
            assert forall|i: int| 0 <= i < 6 implies draw.top_claimed[i] <= draw.top_amounts[i] by {
                if i != wi {
                    assert(draw.top_claimed@[i] == old(draw).top_claimed@[i]);
                }
            }
        }
    }
    Ok(
        PrizeVestingClaimed {
            pool_type: draw.pool_type,
            round_number: draw.round_number,
            winner_index,
            winner: draw.top_winners[wi],
            claimed_amount: claimable,
            total_claimed: vested_amount,
            total_prize: total_amount,
            timestamp: now,
        },
    )
}

/// Claiming is idempotent in effect: once a claim has brought a slot up to
/// what has unlocked at some time, a further claim at that time or earlier
/// pays nothing and is rejected.
pub proof fn lemma_second_claim_pays_nothing(
    after_first: DrawResult,
    winner_index: u8,
    token_owner: Address,
    first_at: i64,
    again_at: i64,
)
    requires
        winner_index < 6,
        again_at <= first_at,
        after_first.top_claimed[winner_index as int] == prize_vested(
            after_first.top_amounts[winner_index as int],
            first_at,
            after_first.draw_timestamp,
        ),
    ensures
        prize_claim_error(after_first, winner_index, token_owner, again_at) is Some,
{
    lemma_prize_vested_monotonic(
        after_first.top_amounts[winner_index as int],
        again_at,
        first_at,
        after_first.draw_timestamp,
    );
}

/// Whenever claims are made, in whatever order: a record in which no slot has
/// received more than it is owed stays so under any outcome of a claim, and
/// no slot's claimed amount ever shrinks.
pub proof fn lemma_claims_never_exceed_prize(
    before: DrawResult,
    after: DrawResult,
    winner_index: u8,
    token_owner: Address,
    now: i64,
)
    requires
        before.wf(),
        match prize_claim_error(before, winner_index, token_owner, now) {
            Some(_) => after == before,
            None => after.top_amounts == before.top_amounts && after.top_claimed@
                == before.top_claimed@.update(
                winner_index as int,
                prize_vested(before.top_amounts[winner_index as int], now, before.draw_timestamp) as u64,
            ),
        },
    ensures
        after.wf(),
        forall|i: int| 0 <= i < 6 ==> before.top_claimed[i] <= after.top_claimed[i],
{
    if prize_claim_error(before, winner_index, token_owner, now) is None {
        let wi = winner_index as int;
        lemma_prize_vested_bounds(before.top_amounts[wi], now, before.draw_timestamp);
        assert forall|i: int| 0 <= i < 6 implies after.top_claimed[i] <= after.top_amounts[i]
            && before.top_claimed[i] <= after.top_claimed[i] by {
            assert(after.top_claimed@[i] == before.top_claimed@.update(
                wi,
                prize_vested(before.top_amounts[wi], now, before.draw_timestamp) as u64,
            )[i]);
            assert(before.top_claimed[i] <= before.top_amounts[i]);
        }
    }
}

/// Why a referral claim is rejected, if it is. The draw record is the proof
/// that the round was drawn and not refunded.
pub open spec fn referral_error(
    draw: DrawResult,
    dep: UserDeposit,
    pool_type: u8,
    round_number: u64,
    referrer_account: Address,
) -> Option<ErrorCode> {
    if draw.pool_type != pool_type {
        Some(ErrorCode::InvalidParticipant)
    } else if draw.round_number != round_number {
        Some(ErrorCode::WrongRoundNumber)
    } else if dep.pool_type != pool_type {
        Some(ErrorCode::InvalidParticipant)
    } else if dep.round_number != round_number {
        Some(ErrorCode::WrongRoundNumber)
    } else if dep.referrer.is_none() {
        Some(ErrorCode::NoReferral)
    } else if referrer_account != dep.referrer {
        Some(ErrorCode::ReferrerMismatch)
    } else {
        None
    }
}

/// What a referral pays: 8% of the deposit, as far as the vault reaches.
pub open spec fn referral_payment(amount: u64, vault_balance: u64) -> int {
    if rate_share(amount as int, 800) <= vault_balance {
        rate_share(amount as int, 800)
    } else {
        vault_balance as int
    }
}

/// Pays the referrer of a deposit once its round has been drawn: 8% of the
/// deposit, capped at what the referral vault holds. The referrer is then
/// cleared from the deposit, also where the vault was empty, so that no
/// second claim can pay.
///
/// Returns the amount to move from the referral vault to `referrer_account`.
/// A rejected claim leaves the deposit as it was.
pub fn claim_referral(
    draw: &DrawResult,
    dep: &mut UserDeposit,
    pool_type: u8,
    round_number: u64,
    referrer_account: Address,
    vault_balance: u64,
) -> (r: Result<u64, ErrorCode>)
    ensures
        match referral_error(*draw, *old(dep), pool_type, round_number, referrer_account) {
            Some(e) => r == Err::<u64, ErrorCode>(e) && *final(dep) == *old(dep),
            None => {
                &&& r == Ok::<u64, ErrorCode>(
                    referral_payment(old(dep).amount, vault_balance) as u64,
                )
                &&& final(dep).referrer.is_none()
                &&& final(dep).user == old(dep).user
                &&& final(dep).pool_type == old(dep).pool_type
                &&& final(dep).round_number == old(dep).round_number
                &&& final(dep).amount == old(dep).amount
                &&& final(dep).bump == old(dep).bump
            },
        },
{
    if draw.pool_type != pool_type {
        return Err(ErrorCode::InvalidParticipant);
    }
    if draw.round_number != round_number {
        return Err(ErrorCode::WrongRoundNumber);
    }
    if dep.pool_type != pool_type {
        return Err(ErrorCode::InvalidParticipant);
    }
    if dep.round_number != round_number {
        return Err(ErrorCode::WrongRoundNumber);
    }
    if dep.referrer.is_default() {
        return Err(ErrorCode::NoReferral);
    }
    if !referrer_account.same(&dep.referrer) {
        return Err(ErrorCode::ReferrerMismatch);
    }
    let fee: u64 = share_of(dep.amount, REFERRER_BP);
    let paid: u64 = if fee <= vault_balance {
        fee
    } else {
        vault_balance
    };
    dep.referrer = Address::none();
    Ok(paid)
}

/// A referral is paid at most once: whatever a first claim paid, it left the
/// deposit without a referrer, and every later claim on that deposit is
/// rejected, for want of a referral wherever pool and round are the right
/// ones.
pub proof fn lemma_referral_paid_once(
    draw: DrawResult,
    after_first: UserDeposit,
    pool_type: u8,
    round_number: u64,
    referrer_account: Address,
)
    requires
        after_first.referrer.is_none(),
    ensures
        referral_error(draw, after_first, pool_type, round_number, referrer_account) is Some,
        draw.pool_type == pool_type && draw.round_number == round_number && after_first.pool_type
            == pool_type && after_first.round_number == round_number ==> referral_error(
            draw,
            after_first,
            pool_type,
            round_number,
            referrer_account,
        ) == Some(ErrorCode::NoReferral),
{
}

/// The part of a vesting account that has unlocked: 5% per whole day since
/// its start, all of it after twenty days.
pub open spec fn account_vested(total_amount: u64, now: i64, start_time: i64) -> int {
    let days = if elapsed_days(now, start_time) < 20 {
        elapsed_days(now, start_time)
    } else {
        20
    };
    total_amount * (days * 500) / 10_000
}

/// Why a claim on a vesting account is rejected, if it is.
pub open spec fn vested_claim_error(v: VestingAccount, now: i64) -> Option<ErrorCode> {
    let days = if elapsed_days(now, v.start_time) < 20 {
        elapsed_days(now, v.start_time)
    } else {
        20
    };
    if v.total_amount * (days * 500) > u64::MAX {
        Some(ErrorCode::MathOverflow)
    } else if account_vested(v.total_amount, now, v.start_time) <= v.claimed_amount {
        Some(ErrorCode::BelowMinimum)
    } else {
        None
    }
}

/// Opens a vesting account over `total_amount` that starts to unlock at `now`.
pub fn init_vesting(beneficiary: Address, total_amount: u64, now: i64, bump: u8) -> (v:
    VestingAccount)
    ensures
        v == (VestingAccount { beneficiary, total_amount, claimed_amount: 0, start_time: now, bump }),
{
    VestingAccount { beneficiary, total_amount, claimed_amount: 0, start_time: now, bump }
}

/// Pays out what has unlocked of a vesting account and was not paid before,
/// and adds it to the claimed amount. Returns the payment.
///
/// A rejected claim leaves the account as it was.
pub fn claim_vested(v: &mut VestingAccount, now: i64) -> (r: Result<u64, ErrorCode>)
    ensures
        match vested_claim_error(*old(v), now) {
            Some(e) => r == Err::<u64, ErrorCode>(e) && *final(v) == *old(v),
            None => {
                let vested = account_vested(old(v).total_amount, now, old(v).start_time);
                &&& r == Ok::<u64, ErrorCode>((vested - old(v).claimed_amount) as u64)
                &&& *final(v) == (VestingAccount { claimed_amount: vested as u64, ..*old(v) })
                &&& final(v).claimed_amount <= final(v).total_amount
            },
        },
        old(v).claimed_amount <= final(v).claimed_amount,
        old(v).claimed_amount <= old(v).total_amount ==> final(v).claimed_amount
            <= final(v).total_amount,
{
    let vested_days: u64 = days_since(now, v.start_time, VESTING_DAYS);
    let rate: u64 = vested_days * VESTING_RELEASE_PER_DAY;
    let scaled: u64 = match v.total_amount.checked_mul(rate) {
        Some(s) => s,
        None => {
            return Err(ErrorCode::MathOverflow);
        },
    };
    let vested_amount: u64 = scaled / 10_000;
    proof {
        let t = v.total_amount as int;
        let k = rate as int;
        assert(t * k / 10_000 <= t) by (nonlinear_arith)
            requires
                0 <= t,
                0 <= k <= 10_000,
        ;
    }
    if vested_amount <= v.claimed_amount {
        return Err(ErrorCode::BelowMinimum);
    }
    let claimable: u64 = vested_amount - v.claimed_amount;
    v.claimed_amount = v.claimed_amount + claimable;
    Ok(claimable)
}

} // verus!
