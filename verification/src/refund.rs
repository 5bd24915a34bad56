use vstd::prelude::*;
use crate::address::Address;
use crate::error::ErrorCode;
use crate::events::RoundRefunded;
use crate::participants::{
    check_participants, first_proof_error, lemma_accepted_from, payout_total, OwnershipProof,
    Participant, Payout,
};
use crate::round::{
    advance_error, check_settlement, entry_error, next_round, next_round_end, SettlementKind,
};
use crate::state::PoolState;

verus! {

/// What a refund asks its caller to carry out.
#[derive(Debug, PartialEq, Eq)]
pub struct RefundSettlement {
    pub event: RoundRefunded,
    /// One payment per regular participant, in the order supplied.
    pub refunds: Vec<Payout>,
}

/// The sum of the amounts of the regular deposits among the first `n` records.
pub open spec fn deposits_total(ps: Seq<Participant>, n: int) -> int
    decreases n,
{
    if n <= 0 {
        0
    } else {
        deposits_total(ps, n - 1) + match ps[n - 1].proof {
            OwnershipProof::Regular(dep) => dep.amount as int,
            OwnershipProof::Free(_) => 0,
        }
    }
}

/// The pool after a refund: the next round is open without regular deposits;
/// promotional bets and the rollover carry over untouched.
pub open spec fn pool_after_refund(pool: PoolState) -> PoolState {
    PoolState {
        round_number: (pool.round_number + 1) as u64,
        round_start_time: pool.round_end_time,
        round_end_time: next_round_end(pool) as i64,
        total_deposited: 0,
        regular_count: 0,
        ..pool
    }
}

/// Why a refund is rejected, if it is: the checks in the order in which they
/// are made. The list holds every participant of the round, the regular ones
/// first, then the promotional ones, as for a draw.
pub open spec fn refund_error(
    pool: PoolState,
    ps: Seq<Participant>,
    pool_vault: Address,
    now: i64,
) -> Option<ErrorCode> {
    if entry_error(pool, pool_vault, 2 * (ps.len() as int), now, SettlementKind::Refund) is Some {
        entry_error(pool, pool_vault, 2 * (ps.len() as int), now, SettlementKind::Refund)
    } else if first_proof_error(ps, pool.regular_count as int, pool.pool_type, pool.round_number, 0)
        is Some {
        first_proof_error(ps, pool.regular_count as int, pool.pool_type, pool.round_number, 0)
    } else {
        advance_error(pool)
    }
}

/// The payment returns a regular deposit in full to the destination that was
/// supplied with it.
pub open spec fn is_refund_of(refund: Payout, p: Participant) -> bool {
    &&& refund.destination == p.destination
    &&& match p.proof {
        OwnershipProof::Regular(dep) => refund.amount == dep.amount,
        OwnershipProof::Free(_) => false,
    }
}

/// The settlement returns to every regular participant exactly the amount of
/// their deposit, in the order of the list, and pays nothing to anybody
/// else: there is one refund for each of the first `regular_count` entries
/// and none for the promotional ones after them.
pub open spec fn is_refund_settlement(
    s: RefundSettlement,
    pool: PoolState,
    ps: Seq<Participant>,
    now: i64,
) -> bool {
    &&& s.event.pool_type == pool.pool_type
    &&& s.event.round_number == pool.round_number
    &&& s.event.regular_refunded == pool.regular_count
    &&& s.event.free_carried_over == pool.free_count
    &&& s.event.total_refunded == pool.total_deposited
    &&& s.event.timestamp == now
    &&& s.refunds@.len() == pool.regular_count
    &&& forall|i: int|
        0 <= i < pool.regular_count ==> #[trigger] is_refund_of(s.refunds@[i], ps[i])
}

/// The refunds add up to the amounts of the deposits they return.
pub proof fn lemma_refunds_sum_to_deposits(refunds: Seq<Payout>, ps: Seq<Participant>, n: int)
    requires
        0 <= n <= ps.len(),
        refunds.len() == n,
        forall|i: int| 0 <= i < n ==> #[trigger] is_refund_of(refunds[i], ps[i]),
    ensures
        payout_total(refunds) == deposits_total(ps, n),
    decreases n,
{
    if n > 0 {
        let head = refunds.drop_last();
        assert forall|i: int| 0 <= i < n - 1 implies #[trigger] is_refund_of(head[i], ps[i]) by {
            assert(is_refund_of(refunds[i], ps[i]));
        }
        lemma_refunds_sum_to_deposits(head, ps, n - 1);
        assert(is_refund_of(refunds[n - 1], ps[n - 1]));
    }
}

/// Refund exactness: where the records supplied are the round's deposits, so
/// that their amounts add up to the pool's regular total, the refunds add up
/// to that total exactly, and it is the total that the refund reports.
pub proof fn lemma_refund_exact(
    s: RefundSettlement,
    pool: PoolState,
    ps: Seq<Participant>,
    now: i64,
)
    requires
        pool.regular_count <= ps.len(),
        is_refund_settlement(s, pool, ps, now),
        deposits_total(ps, pool.regular_count as int) == pool.total_deposited,
    ensures
        payout_total(s.refunds@) == pool.total_deposited,
        payout_total(s.refunds@) == s.event.total_refunded,
{
    lemma_refunds_sum_to_deposits(s.refunds@, ps, pool.regular_count as int);
}

/// When a refund is owed: the round has ended, fewer than twelve participants
/// joined, and the list holds a valid record for each of them, promotional
/// ones included. Beyond these, only three things can stand in the way, each
/// of them a rejection in its own right: the vault handed in is not the
/// pool's, the pool's identifier names no pool, or the number or the end of
/// the next round would leave its range.
pub proof fn lemma_refund_is_owed(
    pool: PoolState,
    ps: Seq<Participant>,
    pool_vault: Address,
    now: i64,
)
    requires
        now >= pool.round_end_time,
        pool.regular_count + pool.free_count < 12,
        ps.len() == pool.regular_count + pool.free_count,
        first_proof_error(ps, pool.regular_count as int, pool.pool_type, pool.round_number, 0)
            is None,
        pool_vault == pool.vault,
        advance_error(pool) is None,
    ensures
        refund_error(pool, ps, pool_vault, now) is None,
{
}

/// Settles a round that has too few participants: every regular participant
/// gets back exactly the amount of their deposit, and the pool opens its next
/// round without regular deposits. Promotional bets are supplied and checked
/// like the other records but not touched: they stay active, nothing is paid
/// to their holders, and their count and total carry over, as does the
/// rollover.
///
/// `participants` holds the regular participants first, then the promotional
/// ones. Any failed check leaves the pool as it was.
pub fn execute_refund(
    pool: &mut PoolState,
    participants: &Vec<Participant>,
    pool_vault: Address,
    now: i64,
) -> (r: Result<RefundSettlement, ErrorCode>)
    ensures
        match refund_error(*old(pool), participants@, pool_vault, now) {
            Some(e) => r == Err::<RefundSettlement, ErrorCode>(e) && *final(pool) == *old(pool),
            None => r is Ok && is_refund_settlement(r.unwrap(), *old(pool), participants@, now)
                && payout_total(r.unwrap().refunds@) == deposits_total(
                participants@,
                old(pool).regular_count as int,
            ) && *final(pool) == pool_after_refund(*old(pool)),
        },
        r is Ok ==> final(pool).round_number == old(pool).round_number + 1,
        r is Ok ==> final(pool).free_count == old(pool).free_count && final(pool).free_bet_total
            == old(pool).free_bet_total && final(pool).rollover == old(pool).rollover,
{
    let total_count: u32 = match check_settlement(pool, &pool_vault, now, SettlementKind::Refund) {
        Ok(n) => n,
        Err(e) => {
            return Err(e);
        },
    };
    if participants.len() != total_count as usize {
        return Err(ErrorCode::ParticipantCountMismatch);
    }
    match check_participants(participants, pool.regular_count, pool.pool_type, pool.round_number) {
        Err(e) => {
            return Err(e);
        },
        Ok(_) => {},
    }
    let (next_number, next_end) = match next_round(pool) {
        Ok(next) => next,
        Err(e) => {
            return Err(e);
        },
    };
    let regular: usize = pool.regular_count as usize;
    let mut refunds: Vec<Payout> = Vec::new();
    let mut i: usize = 0;
    while i < regular
        invariant
            i <= regular,
            regular == pool.regular_count,
            regular <= participants.len(),
            refunds.len() == i,
            forall|k: int| 0 <= k < i ==> #[trigger] is_refund_of(refunds[k], participants[k]),
            first_proof_error(
                participants@,
                pool.regular_count as int,
                pool.pool_type,
                pool.round_number,
                i as int,
            ) is None,
        decreases regular - i,
    {
        let p: Participant = participants[i];
        proof {
            lemma_accepted_from(
                participants@,
                pool.regular_count as int,
                pool.pool_type,
                pool.round_number,
                i as int,
            );
        }
        match p.proof {
            OwnershipProof::Regular(dep) => {
                refunds.push(Payout { destination: p.destination, amount: dep.amount });
            },
            OwnershipProof::Free(_) => {},
        }
        i += 1;
    }
    proof {
        lemma_refunds_sum_to_deposits(refunds@, participants@, regular as int);
    }
    let event = RoundRefunded {
        pool_type: pool.pool_type,
        round_number: pool.round_number,
        regular_refunded: pool.regular_count,
        free_carried_over: pool.free_count,
        total_refunded: pool.total_deposited,
        timestamp: now,
    };
    pool.round_number = next_number;
    pool.round_start_time = pool.round_end_time;
    pool.round_end_time = next_end;
    pool.total_deposited = 0;
    pool.regular_count = 0;
    Ok(RefundSettlement { event, refunds })
}

} // verus!
