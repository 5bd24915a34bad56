use vstd::prelude::*;
use crate::address::Address;
use crate::constants::{LOCK_PERIOD, MIN_PARTICIPANTS};
use crate::draw::draw_error;
use crate::error::ErrorCode;
use crate::ledger::{betting_open, deposit_error, free_bet_error};
use crate::participants::Participant;
use crate::refund::refund_error;
use crate::state::{
    pool_type_from_u8, spec_pool_type, AirdropClaim, FreeDeposit, PoolState, UserDeposit,
};

verus! {

/// Where a round stands at a given time.
#[derive(Clone, Copy, Debug, PartialEq, Eq, Structural)]
pub enum RoundPhase {
    /// Deposits are accepted.
    Open,
    /// Within the lock window before the end: no deposits, no settlement yet.
    Locked,
    /// The end time has come: the round can be drawn or refunded.
    Drawable,
}

/// How a round that has reached its end is settled.
#[derive(Clone, Copy, Debug, PartialEq, Eq, Structural)]
pub enum SettlementKind {
    /// Too few participants: deposits go back.
    Refund,
    /// Enough participants: winners are drawn.
    Draw,
}

/// The participants of the running round.
pub open spec fn total_count_of(pool: PoolState) -> int {
    pool.regular_count + pool.free_count
}

/// Why the round cannot move on, if it cannot: the pool identifier is
/// unknown, or the round number or the end time would leave its range.
pub open spec fn advance_error(pool: PoolState) -> Option<ErrorCode> {
    match spec_pool_type(pool.pool_type) {
        None => Some(ErrorCode::InvalidPoolType),
        Some(pt) => if pool.round_number + 1 > u64::MAX {
            Some(ErrorCode::MathOverflow)
        } else if pool.round_end_time + pt.spec_duration() > i64::MAX {
            Some(ErrorCode::MathOverflow)
        } else {
            None
        },
    }
}

/// The end of the round that follows the pool's current one.
pub open spec fn next_round_end(pool: PoolState) -> int {
    pool.round_end_time + spec_pool_type(pool.pool_type).unwrap().spec_duration()
}

/// The phase of the pool's running round at `now`.
pub open spec fn phase_of(pool: PoolState, now: i64) -> RoundPhase {
    if now >= pool.round_end_time {
        RoundPhase::Drawable
    } else if now >= pool.round_end_time - 300 {
        RoundPhase::Locked
    } else {
        RoundPhase::Open
    }
}

/// How the pool's running round is to be settled: by the number of its
/// participants alone.
pub open spec fn settlement_of(pool: PoolState) -> SettlementKind {
    if total_count_of(pool) < 12 {
        SettlementKind::Refund
    } else {
        SettlementKind::Draw
    }
}

/// Why the pool's running round cannot be settled in the given way at `now`,
/// if it cannot, before any record is read: the round has not ended, the
/// vault is not the pool's, the participants cannot be counted, their number
/// asks for the other way of settling.
pub open spec fn settle_error(
    pool: PoolState,
    pool_vault: Address,
    now: i64,
    kind: SettlementKind,
) -> Option<ErrorCode> {
    if now < pool.round_end_time {
        Some(ErrorCode::TooEarlyForDraw)
    } else if pool_vault != pool.vault {
        Some(ErrorCode::VaultMismatch)
    } else if total_count_of(pool) > u32::MAX {
        Some(ErrorCode::MathOverflow)
    } else if settlement_of(pool) != kind {
        match kind {
            SettlementKind::Draw => Some(ErrorCode::ShouldUseRefund),
            SettlementKind::Refund => Some(ErrorCode::ShouldUseDraw),
        }
    } else {
        None
    }
}

/// Why a settlement is rejected on entry, if it is: the checks above, and
/// then the size of the caller's list. The list holds a deposit record and a
/// payout destination for every participant of the round, regular and
/// promotional, so `supplied` must be twice their number, whichever way the
/// round is settled.
pub open spec fn entry_error(
    pool: PoolState,
    pool_vault: Address,
    supplied: int,
    now: i64,
    kind: SettlementKind,
) -> Option<ErrorCode> {
    match settle_error(pool, pool_vault, now, kind) {
        Some(e) => Some(e),
        None => if supplied != 2 * total_count_of(pool) {
            Some(ErrorCode::ParticipantCountMismatch)
        } else {
            None
        },
    }
}

/// The phase of the pool's running round at `now`.
pub fn round_phase(pool: &PoolState, now: i64) -> (phase: RoundPhase)
    ensures
        phase == phase_of(*pool, now),
{
    if now >= pool.round_end_time {
        RoundPhase::Drawable
    } else if (now as i128) >= (pool.round_end_time as i128) - (LOCK_PERIOD as i128) {
        RoundPhase::Locked
    } else {
        RoundPhase::Open
    }
}

/// The number and the end time of the round that follows.
pub(crate) fn next_round(pool: &PoolState) -> (r: Result<(u64, i64), ErrorCode>)
    ensures
        match advance_error(*pool) {
            Some(e) => r == Err::<(u64, i64), ErrorCode>(e),
            None => r == Ok::<(u64, i64), ErrorCode>(
                ((pool.round_number + 1) as u64, next_round_end(*pool) as i64),
            ),
        },
{
    let pt = match pool_type_from_u8(pool.pool_type) {
        Ok(pt) => pt,
        Err(e) => {
            return Err(e);
        },
    };
    let number: u64 = match pool.round_number.checked_add(1) {
        Some(n) => n,
        None => {
            return Err(ErrorCode::MathOverflow);
        },
    };
    let end: i64 = match pool.round_end_time.checked_add(pt.duration()) {
        Some(t) => t,
        None => {
            return Err(ErrorCode::MathOverflow);
        },
    };
    Ok((number, end))
}

/// How the pool's running round is to be settled once it has ended.
pub fn settlement_kind(pool: &PoolState) -> (kind: SettlementKind)
    ensures
        kind == settlement_of(*pool),
{
    if (pool.regular_count as u64) + (pool.free_count as u64) < (MIN_PARTICIPANTS as u64) {
        SettlementKind::Refund
    } else {
        SettlementKind::Draw
    }
}

/// The entry checks that come before the size of the list; gives the number
/// of participants.
pub(crate) fn check_settlement(
    pool: &PoolState,
    pool_vault: &Address,
    now: i64,
    kind: SettlementKind,
) -> (r: Result<u32, ErrorCode>)
    ensures
        match settle_error(*pool, *pool_vault, now, kind) {
            Some(e) => r == Err::<u32, ErrorCode>(e),
            None => r == Ok::<u32, ErrorCode>(total_count_of(*pool) as u32),
        },
        r is Ok ==> r.unwrap() == total_count_of(*pool),
{
    if now < pool.round_end_time {
        return Err(ErrorCode::TooEarlyForDraw);
    }
    if !pool_vault.same(&pool.vault) {
        return Err(ErrorCode::VaultMismatch);
    }
    let total_count: u32 = match pool.regular_count.checked_add(pool.free_count) {
        Some(n) => n,
        None => {
            return Err(ErrorCode::MathOverflow);
        },
    };
    match kind {
        SettlementKind::Draw => {
            if total_count < MIN_PARTICIPANTS {
                return Err(ErrorCode::ShouldUseRefund);
            }
        },
        SettlementKind::Refund => {
            if total_count >= MIN_PARTICIPANTS {
                return Err(ErrorCode::ShouldUseDraw);
            }
        },
    }
    Ok(total_count)
}

/// Checks on entry whether the pool's running round can be settled in the
/// given way at `now` with a list of `supplied` entries, before any record is
/// read. The list holds two entries, a deposit record and a payout
/// destination, for every participant of the round. Gives the number of
/// participants.
pub fn check_entry(
    pool: &PoolState,
    pool_vault: Address,
    supplied: usize,
    now: i64,
    kind: SettlementKind,
) -> (r: Result<u32, ErrorCode>)
    ensures
        match entry_error(*pool, pool_vault, supplied as int, now, kind) {
            Some(e) => r == Err::<u32, ErrorCode>(e),
            None => r == Ok::<u32, ErrorCode>(total_count_of(*pool) as u32),
        },
        r is Ok ==> supplied == 2 * r.unwrap(),
{
    let total_count: u32 = match check_settlement(pool, &pool_vault, now, kind) {
        Ok(n) => n,
        Err(e) => {
            return Err(e);
        },
    };
    if (supplied as u128) != 2 * (total_count as u128) {
        return Err(ErrorCode::ParticipantCountMismatch);
    }
    Ok(total_count)
}

/// Deposits and promotional bets are accepted in the open phase only.
pub proof fn lemma_entries_only_while_open(
    pool: PoolState,
    deposited: Option<UserDeposit>,
    user: Address,
    amount: u64,
    reserve_balance: u64,
    claim: AirdropClaim,
    existing: Option<FreeDeposit>,
    pool_type: u8,
    now: i64,
)
    ensures
        deposit_error(pool, deposited, user, amount, reserve_balance, now) is None ==> phase_of(
            pool,
            now,
        ) == RoundPhase::Open,
        free_bet_error(pool, claim, existing, user, pool_type, now) is None ==> phase_of(pool, now)
            == RoundPhase::Open,
        betting_open(pool, now) <==> phase_of(pool, now) == RoundPhase::Open,
{
}

/// A round is settled only once it is drawable, and the number of its
/// participants alone decides how: a draw takes at least twelve, a refund
/// fewer, so that never both are accepted.
pub proof fn lemma_settlement_branches(
    pool: PoolState,
    drawn: Seq<Participant>,
    refunded: Seq<Participant>,
    pool_vault: Address,
    now: i64,
)
    ensures
        draw_error(pool, drawn, pool_vault, now) is None ==> phase_of(pool, now)
            == RoundPhase::Drawable && settlement_of(pool) == SettlementKind::Draw,
        refund_error(pool, refunded, pool_vault, now) is None ==> phase_of(pool, now)
            == RoundPhase::Drawable && settlement_of(pool) == SettlementKind::Refund,
        !(draw_error(pool, drawn, pool_vault, now) is None && refund_error(
            pool,
            refunded,
            pool_vault,
            now,
        ) is None),
{
}

} // verus!
