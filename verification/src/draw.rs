use vstd::prelude::*;
use crate::address::Address;
use crate::error::ErrorCode;
use crate::events::DrawExecuted;
use crate::participants::{
    check_participants, first_proof_error, lemma_equal_payouts_total, lemma_payout_total_concat,
    owner, owner_of, payout_total, OwnershipProof, Participant, Payout,
};
use crate::prizes::{
    burn_of, distributable_of, fee_of, lemma_draw_conservation, lemma_draw_never_overpays,
    paid_out_of, rollover_of, split_prizes, tier_of, top_total_of, universal_count_of,
    universal_each_of, PrizeSplit,
};
use crate::round::{
    advance_error, check_settlement, entry_error, next_round, next_round_end, total_count_of,
    SettlementKind,
};
use crate::state::{DrawResult, FreeDeposit, PoolState};
use crate::winners::{
    distinct_slots, lemma_select_winners_distinct, pick_winner_indices, select_winners,
};

verus! {

/// What a successful draw asks its caller to carry out and to store.
#[derive(Debug, PartialEq, Eq)]
pub struct DrawSettlement {
    pub event: DrawExecuted,
    /// The vesting record to store for this pool and round.
    pub record: DrawResult,
    /// What moves to the prize escrow: the six top prizes together.
    pub escrow_amount: u64,
    /// Immediate payments: the lucky winners, then everybody without a slot.
    pub payouts: Vec<Payout>,
}

/// Everything the pool holds at draw time: regular and promotional totals
/// and what the last draw rolled over.
pub open spec fn total_pool_of(pool: PoolState) -> int {
    pool.total_deposited + pool.free_bet_total + pool.rollover
}

/// The pool after a successful draw: the next round is open, all counters
/// are zero and the rollover is what this draw set aside.
pub open spec fn pool_after_draw(pool: PoolState) -> PoolState {
    PoolState {
        round_number: (pool.round_number + 1) as u64,
        round_start_time: pool.round_end_time,
        round_end_time: next_round_end(pool) as i64,
        total_deposited: 0,
        free_bet_total: 0,
        regular_count: 0,
        free_count: 0,
        rollover: rollover_of(total_pool_of(pool)) as u64,
        ..pool
    }
}

/// A participant record after a successful draw: a promotional bet is used
/// up, a regular deposit stays as it is.
pub open spec fn consumed(p: Participant) -> Participant {
    match p.proof {
        OwnershipProof::Regular(_) => p,
        OwnershipProof::Free(dep) => Participant {
            proof: OwnershipProof::Free(FreeDeposit { is_active: false, ..dep }),
            destination: p.destination,
        },
    }
}

/// The payments to the five lucky winners, none where the prize is zero.
pub open spec fn lucky_payouts(ps: Seq<Participant>, winners: Seq<usize>, amount: u64) -> Seq<
    Payout,
> {
    if amount > 0 {
        Seq::new(
            5,
            |i: int| Payout { destination: ps[winners[6 + i] as int].destination, amount: amount },
        )
    } else {
        Seq::empty()
    }
}

/// The payments to those of the first `n` participants who hold no prize
/// slot, in their order; none where the amount is zero.
pub open spec fn universal_payouts(
    ps: Seq<Participant>,
    winners: Seq<usize>,
    amount: u64,
    n: int,
) -> Seq<Payout>
    decreases n,
{
    if n <= 0 {
        Seq::empty()
    } else {
        let before = universal_payouts(ps, winners, amount, n - 1);
        if amount > 0 && !winners.contains((n - 1) as usize) {
            before.push(Payout { destination: ps[n - 1].destination, amount: amount })
        } else {
            before
        }
    }
}

/// The six top amounts in the order first, second (two), third (three).
pub open spec fn top_amounts_of(total_pool: int) -> Seq<u64> {
    seq![
        tier_of(total_pool, 3000) as u64,
        tier_of(total_pool, 1000) as u64,
        tier_of(total_pool, 1000) as u64,
        tier_of(total_pool, 500) as u64,
        tier_of(total_pool, 500) as u64,
        tier_of(total_pool, 500) as u64,
    ]
}

/// Why a draw is rejected, if it is: the checks in the order in which they
/// are made.
pub open spec fn draw_error(
    pool: PoolState,
    ps: Seq<Participant>,
    pool_vault: Address,
    now: i64,
) -> Option<ErrorCode> {
    if entry_error(pool, pool_vault, 2 * (ps.len() as int), now, SettlementKind::Draw) is Some {
        entry_error(pool, pool_vault, 2 * (ps.len() as int), now, SettlementKind::Draw)
    } else if total_pool_of(pool) > u64::MAX {
        Some(ErrorCode::MathOverflow)
    } else if first_proof_error(ps, pool.regular_count as int, pool.pool_type, pool.round_number, 0)
        is Some {
        first_proof_error(ps, pool.regular_count as int, pool.pool_type, pool.round_number, 0)
    } else {
        advance_error(pool)
    }
}

/// The settlement holds what the rules give for this pool, these
/// participants, this seed and this time.
pub open spec fn is_draw_settlement(
    s: DrawSettlement,
    pool: PoolState,
    ps: Seq<Participant>,
    seed: [u8; 32],
    now: i64,
    bump: u8,
) -> bool {
    let total_pool = total_pool_of(pool);
    let total_count = total_count_of(pool);
    let w = select_winners(seed@, total_count as nat);
    &&& s.event.pool_type == pool.pool_type
    &&& s.event.round_number == pool.round_number
    &&& s.event.total_pool == total_pool
    &&& s.event.participant_count == total_count
    &&& s.event.top_winners@ == Seq::new(6, |i: int| owner_of(ps[w[i] as int]))
    &&& s.event.top_amounts@ == top_amounts_of(total_pool)
    &&& s.event.lucky_winners@ == Seq::new(5, |i: int| owner_of(ps[w[6 + i] as int]))
    &&& s.event.lucky_amount_each == tier_of(total_pool, 200)
    &&& s.event.universal_count == universal_count_of(total_count)
    &&& s.event.universal_amount_each == universal_each_of(total_pool, total_count)
    &&& s.event.burn_amount == burn_of(total_pool)
    &&& s.event.platform_amount == fee_of(total_pool)
    &&& s.event.rollover_amount == rollover_of(total_pool)
    &&& s.event.draw_seed == seed
    &&& s.event.timestamp == now
    &&& s.record.pool_type == pool.pool_type
    &&& s.record.round_number == pool.round_number
    &&& s.record.top_winners == s.event.top_winners
    &&& s.record.top_amounts == s.event.top_amounts
    &&& s.record.top_claimed@ == Seq::new(6, |i: int| 0u64)
    &&& s.record.draw_timestamp == now
    &&& s.record.bump == bump
    &&& s.escrow_amount == top_total_of(total_pool)
    &&& s.payouts@ == lucky_payouts(ps, w, s.event.lucky_amount_each) + universal_payouts(
        ps,
        w,
        s.event.universal_amount_each,
        ps.len() as int,
    )
}

/// Everything that a settlement moves or sets aside: burn, platform fee,
/// rollover, escrow and the immediate payments.
pub open spec fn settlement_outflow(s: DrawSettlement) -> int {
    s.event.burn_amount + s.event.platform_amount + s.event.rollover_amount + s.escrow_amount
        + payout_total(s.payouts@)
}

/// How many of the first `k` winner slots lie below slot `m`.
pub open spec fn winners_below(w: Seq<usize>, m: int, k: int) -> int
    decreases k,
{
    if k <= 0 {
        0
    } else {
        winners_below(w, m, k - 1) + if w[k - 1] < m {
            1int
        } else {
            0int
        }
    }
}

/// No winner slot lies below slot zero.
proof fn lemma_winners_below_none(w: Seq<usize>, k: int)
    requires
        0 <= k <= w.len(),
    ensures
        winners_below(w, 0, k) == 0,
    decreases k,
{
    if k > 0 {
        lemma_winners_below_none(w, k - 1);
    }
}

/// Raising the bound by one slot counts one more winner exactly where that
/// slot is a winner's.
proof fn lemma_winners_below_step(w: Seq<usize>, m: int, k: int)
    requires
        0 <= k <= w.len(),
        forall|a: int, b: int| 0 <= a < b < w.len() ==> #[trigger] w[a] != #[trigger] w[b],
    ensures
        winners_below(w, m + 1, k) == winners_below(w, m, k) + if exists|i: int|
            0 <= i < k && w[i] == m {
            1int
        } else {
            0int
        },
    decreases k,
{
    if k > 0 {
        lemma_winners_below_step(w, m, k - 1);
        if w[k - 1] == m {
            assert forall|i: int| 0 <= i < k - 1 implies w[i] != m by {
                assert(w[i] != w[k - 1]);
            }
        } else {
            if exists|i: int| 0 <= i < k && w[i] == m {
                let i = choose|i: int| 0 <= i < k && w[i] == m;
                assert(0 <= i < k - 1 && w[i] == m);
            }
        }
    }
}

/// Where every winner slot lies below `m`, all of them are counted.
proof fn lemma_winners_below_all(w: Seq<usize>, m: int, k: int)
    requires
        0 <= k <= w.len(),
        forall|i: int| 0 <= i < w.len() ==> (#[trigger] w[i]) < m,
    ensures
        winners_below(w, m, k) == k,
    decreases k,
{
    if k > 0 {
        lemma_winners_below_all(w, m, k - 1);
    }
}

/// Where the universal prize is zero, nobody is paid one.
proof fn lemma_no_universal_payouts(ps: Seq<Participant>, w: Seq<usize>, m: int)
    ensures
        universal_payouts(ps, w, 0, m).len() == 0,
    decreases m,
{
    if m > 0 {
        lemma_no_universal_payouts(ps, w, m - 1);
    }
}

/// Among the first `m` participants, those without a prize slot are all but
/// the winners below `m`, and each is paid the same amount.
proof fn lemma_universal_payouts_shape(
    ps: Seq<Participant>,
    w: Seq<usize>,
    amount: u64,
    m: int,
)
    requires
        amount > 0,
        0 <= m <= usize::MAX,
        forall|a: int, b: int| 0 <= a < b < w.len() ==> #[trigger] w[a] != #[trigger] w[b],
    ensures
        universal_payouts(ps, w, amount, m).len() == m - winners_below(w, m, w.len() as int),
        forall|k: int|
            0 <= k < universal_payouts(ps, w, amount, m).len() ==> (#[trigger] universal_payouts(
                ps,
                w,
                amount,
                m,
            )[k]).amount == amount,
    decreases m,
{
    if m > 0 {
        lemma_universal_payouts_shape(ps, w, amount, m - 1);
        lemma_winners_below_step(w, m - 1, w.len() as int);
        let slot = (m - 1) as usize;
        if w.contains(slot) {
            let i = choose|i: int| 0 <= i < w.len() && w[i] == slot;
            assert(0 <= i < w.len() && w[i] == m - 1);
        } else {
            if exists|i: int| 0 <= i < w.len() && w[i] == m - 1 {
                let i = choose|i: int| 0 <= i < w.len() && w[i] == m - 1;
                assert(w[i] == slot);
                assert(w.contains(slot));
            }
        }
    } else {
        assert(winners_below(w, 0, w.len() as int) == 0) by {
            lemma_winners_below_none(w, w.len() as int);
        }
    }
}

/// The immediate payments of a draw add up to five lucky prizes and one
/// universal prize for each participant without a prize slot.
pub proof fn lemma_draw_payouts_total(
    ps: Seq<Participant>,
    w: Seq<usize>,
    lucky_each: u64,
    universal_each: u64,
)
    requires
        w.len() == 11,
        11 <= ps.len() <= usize::MAX,
        distinct_slots(w, ps.len()),
    ensures
        payout_total(
            lucky_payouts(ps, w, lucky_each) + universal_payouts(
                ps,
                w,
                universal_each,
                ps.len() as int,
            ),
        ) == 5 * lucky_each + (ps.len() - 11) * universal_each,
{
    let lucky = lucky_payouts(ps, w, lucky_each);
    let universal = universal_payouts(ps, w, universal_each, ps.len() as int);
    lemma_payout_total_concat(lucky, universal);
    lemma_equal_payouts_total(lucky, lucky_each);
    assert(payout_total(lucky) == 5 * lucky_each) by {
        if lucky_each > 0 {
            assert(lucky.len() == 5);
        } else {
            assert(lucky.len() == 0);
        }
    }
    if universal_each > 0 {
        lemma_universal_payouts_shape(ps, w, universal_each, ps.len() as int);
        lemma_winners_below_all(w, ps.len() as int, 11);
        lemma_equal_payouts_total(universal, universal_each);
        assert(universal.len() == ps.len() - 11);
    } else {
        lemma_no_universal_payouts(ps, w, ps.len() as int);
        assert(payout_total(universal) == 0);
        assert((ps.len() - 11) * universal_each == 0) by (nonlinear_arith)
            requires
                universal_each == 0,
        ;
    }
}

/// When a draw is owed: the round has ended, at least twelve participants
/// joined, the list holds a valid record for each of them, and the pool's
/// total fits. Beyond these, only three things can stand in the way, each of
/// them a rejection in its own right: the vault handed in is not the
/// pool's, the pool's identifier names no pool, or the number or the end of
/// the next round would leave its range. With none of them the draw is
/// accepted, and what it pays out stays within the pool.
pub proof fn lemma_draw_is_owed(
    pool: PoolState,
    ps: Seq<Participant>,
    pool_vault: Address,
    now: i64,
)
    requires
        now >= pool.round_end_time,
        12 <= total_count_of(pool) <= u32::MAX,
        ps.len() == total_count_of(pool),
        first_proof_error(ps, pool.regular_count as int, pool.pool_type, pool.round_number, 0)
            is None,
        total_pool_of(pool) <= u64::MAX,
        pool_vault == pool.vault,
        advance_error(pool) is None,
    ensures
        draw_error(pool, ps, pool_vault, now) is None,
        paid_out_of(total_pool_of(pool), total_count_of(pool)) <= total_pool_of(pool),
{
    lemma_draw_never_overpays(total_pool_of(pool), total_count_of(pool));
}

/// Conservation of a draw, over the payments themselves: what a settlement
/// burns, pays, escrows and rolls over is exactly what the rules give for the
/// pool and the participant count, and never more than the pool holds.
pub proof fn lemma_settlement_conserves(
    s: DrawSettlement,
    pool: PoolState,
    ps: Seq<Participant>,
    pool_vault: Address,
    seed: [u8; 32],
    now: i64,
    bump: u8,
)
    requires
        draw_error(pool, ps, pool_vault, now) is None,
        is_draw_settlement(s, pool, ps, seed, now, bump),
    ensures
        settlement_outflow(s) == paid_out_of(total_pool_of(pool), total_count_of(pool)),
        settlement_outflow(s) <= total_pool_of(pool),
        10_000 * (total_pool_of(pool) - settlement_outflow(s)) <= 500 * distributable_of(
            total_pool_of(pool),
        ) + 12 * 9_999 + 10_000 * universal_count_of(total_count_of(pool)),
{
    let total_pool = total_pool_of(pool);
    let total_count = total_count_of(pool);
    let w = select_winners(seed@, total_count as nat);
    lemma_select_winners_distinct(seed@, total_count as nat);
    lemma_draw_payouts_total(ps, w, s.event.lucky_amount_each, s.event.universal_amount_each);
    lemma_draw_conservation(total_pool, total_count);
}

/// Whether a slot is one of the eleven winners.
fn is_winner(winners: &[usize; 11], idx: usize) -> (r: bool)
    ensures
        r == winners@.contains(idx),
{
    let mut k: usize = 0;
    while k < 11
        invariant
            k <= 11,
            forall|m: int| 0 <= m < k ==> winners[m] != idx,
        decreases 11 - k,
    {
        if winners[k] == idx {
            assert(winners@[k as int] == idx);
            return true;
        }
        k += 1;
    }
    false
}

/// The immediate payments of a draw: the lucky winners, then everybody
/// without a prize slot.
fn immediate_payouts(
    participants: &Vec<Participant>,
    winners: &[usize; 11],
    lucky_each: u64,
    universal_each: u64,
) -> (payouts: Vec<Payout>)
    requires
        distinct_slots(winners@, participants.len() as nat),
    ensures
        payouts@ == lucky_payouts(participants@, winners@, lucky_each) + universal_payouts(
            participants@,
            winners@,
            universal_each,
            participants.len() as int,
        ),
{
    let mut payouts: Vec<Payout> = Vec::new();
    if lucky_each > 0 {
        let mut i: usize = 0;
        while i < 5
            invariant
                i <= 5,
                lucky_each > 0,
                distinct_slots(winners@, participants.len() as nat),
                payouts.len() == i,
                forall|k: int|
                    0 <= k < i ==> payouts[k] == lucky_payouts(
                        participants@,
                        winners@,
                        lucky_each,
                    )[k],
            decreases 5 - i,
        {
            let idx: usize = winners[6 + i];
            assert(winners@[6 + i as int] < participants.len());
            payouts.push(Payout { destination: participants[idx].destination, amount: lucky_each });
            i += 1;
        }
    }
    let ghost lucky = lucky_payouts(participants@, winners@, lucky_each);
    assert(payouts@ =~= lucky);
    let mut idx: usize = 0;
    while idx < participants.len()
        invariant
            idx <= participants.len(),
            lucky == lucky_payouts(participants@, winners@, lucky_each),
            payouts@ == lucky + universal_payouts(
                participants@,
                winners@,
                universal_each,
                idx as int,
            ),
        decreases participants.len() - idx,
    {
        let ghost before = universal_payouts(participants@, winners@, universal_each, idx as int);
        if universal_each > 0 && !is_winner(winners, idx) {
            let pay = Payout { destination: participants[idx].destination, amount: universal_each };
            payouts.push(pay);
            assert(payouts@ =~= lucky + before.push(pay));
        }
        idx += 1;
    }
    payouts
}

/// Settles a round that has enough participants: burns 3%, takes 2% for the
/// platform, keeps 5% of the rest as rollover, and splits what remains into
/// the prize tiers among eleven winners that the seed selects and everybody
/// else. The three top tiers go to escrow under a new vesting record; lucky
/// and universal prizes are paid at once. Every promotional bet is used up
/// and the pool opens its next round.
///
/// `participants` holds the regular participants first, then the promotional
/// ones. Any failed check leaves the pool and the records as they were.
pub fn execute_draw(
    pool: &mut PoolState,
    participants: &mut Vec<Participant>,
    pool_vault: Address,
    draw_seed: [u8; 32],
    now: i64,
    bump: u8,
) -> (r: Result<DrawSettlement, ErrorCode>)
    ensures
        match draw_error(*old(pool), old(participants)@, pool_vault, now) {
            Some(e) => r == Err::<DrawSettlement, ErrorCode>(e) && *final(pool) == *old(pool)
                && final(participants)@ == old(participants)@,
            None => r is Ok && is_draw_settlement(
                r.unwrap(),
                *old(pool),
                old(participants)@,
                draw_seed,
                now,
                bump,
            ) && *final(pool) == pool_after_draw(*old(pool)) && final(participants)@ == old(
                participants,
            )@.map_values(|p: Participant| consumed(p)),
        },
        r is Ok ==> final(pool).round_number == old(pool).round_number + 1,
        r is Ok ==> settlement_outflow(r.unwrap()) == paid_out_of(
            total_pool_of(*old(pool)),
            total_count_of(*old(pool)),
        ) && settlement_outflow(r.unwrap()) <= total_pool_of(*old(pool)),
        r is Ok ==> 10_000 * (total_pool_of(*old(pool)) - settlement_outflow(r.unwrap())) <= 500
            * distributable_of(total_pool_of(*old(pool))) + 12 * 9_999 + 10_000
            * universal_count_of(total_count_of(*old(pool))),
{
    let total_count: u32 = match check_settlement(pool, &pool_vault, now, SettlementKind::Draw) {
        Ok(n) => n,
        Err(e) => {
            return Err(e);
        },
    };
    if participants.len() != total_count as usize {
        return Err(ErrorCode::ParticipantCountMismatch);
    }
    let deposits: u64 = match pool.total_deposited.checked_add(pool.free_bet_total) {
        Some(v) => v,
        None => {
            return Err(ErrorCode::MathOverflow);
        },
    };
    let total_pool: u64 = match deposits.checked_add(pool.rollover) {
        Some(v) => v,
        None => {
            return Err(ErrorCode::MathOverflow);
        },
    };
    match check_participants(participants, pool.regular_count, pool.pool_type, pool.round_number) {
        Err(e) => {
            return Err(e);
        },
        Ok(_) => {},
    }
    let (next_number, next_end) = match next_round(pool) {
        Ok(next) => next,
        Err(e) => {
            return Err(e);
        },
    };
    let split: PrizeSplit = split_prizes(total_pool, total_count);
    let winners: [usize; 11] = pick_winner_indices(draw_seed, total_count as usize);
    let zero: Address = Address::none();

    let mut top_winners: [Address; 6] = [zero;6];
    let mut i: usize = 0;
    while i < 6
        invariant
            i <= 6,
            participants@ == old(participants)@,
            distinct_slots(winners@, participants.len() as nat),
            forall|k: int| 0 <= k < i ==> top_winners[k] == owner_of(participants[winners[k] as int]),
        decreases 6 - i,
    {
        let idx: usize = winners[i];
        assert(winners@[i as int] < participants.len());
        top_winners[i] = owner(&participants[idx]);
        i += 1;
    }
    let mut lucky_winners: [Address; 5] = [zero;5];
    let mut j: usize = 0;
    while j < 5
        invariant
            j <= 5,
            participants@ == old(participants)@,
            distinct_slots(winners@, participants.len() as nat),
            forall|k: int|
                0 <= k < j ==> lucky_winners[k] == owner_of(participants[winners[6 + k] as int]),
        decreases 5 - j,
    {
        let idx: usize = winners[6 + j];
        assert(winners@[6 + j as int] < participants.len());
        lucky_winners[j] = owner(&participants[idx]);
        j += 1;
    }
    let payouts: Vec<Payout> = immediate_payouts(
        participants,
        &winners,
        split.prize_lucky_each,
        split.prize_universal_each,
    );
    let top_amounts: [u64; 6] = [
        split.prize_1st,
        split.prize_2nd_each,
        split.prize_2nd_each,
        split.prize_3rd_each,
        split.prize_3rd_each,
        split.prize_3rd_each,
    ];
    let top_claimed: [u64; 6] = [0u64;6];
    let record = DrawResult {
        pool_type: pool.pool_type,
        round_number: pool.round_number,
        top_winners,
        top_amounts,
        top_claimed,
        draw_timestamp: now,
        bump,
    };
    let event = DrawExecuted {
        pool_type: pool.pool_type,
        round_number: pool.round_number,
        total_pool,
        participant_count: total_count,
        top_winners,
        top_amounts,
        lucky_winners,
        lucky_amount_each: split.prize_lucky_each,
        universal_count: split.universal_count,
        universal_amount_each: split.prize_universal_each,
        burn_amount: split.burn_amount,
        platform_amount: split.platform_amount,
        rollover_amount: split.rollover_amount,
        draw_seed,
        timestamp: now,
    };
    let settlement = DrawSettlement {
        event,
        record,
        escrow_amount: split.top_prize_total,
        payouts,
    };
    proof {
        let w = select_winners(draw_seed@, total_count as nat);
        assert(event.top_winners@ =~= Seq::new(6, |i: int| owner_of(participants@[w[i] as int])));
        assert(event.lucky_winners@ =~= Seq::new(
            5,
            |i: int| owner_of(participants@[w[6 + i] as int]),
        ));
        assert(event.top_amounts@ =~= top_amounts_of(total_pool as int));
        assert(record.top_claimed@ =~= Seq::new(6, |i: int| 0u64));
        assert(is_draw_settlement(
            settlement,
            *old(pool),
            old(participants)@,
            draw_seed,
            now,
            bump,
        ));
        lemma_settlement_conserves(
            settlement,
            *old(pool),
            old(participants)@,
            pool_vault,
            draw_seed,
            now,
            bump,
        );
    }
    let mut n: usize = 0;
    while n < participants.len()
        invariant
            n <= participants.len(),
            participants.len() == old(participants).len(),
            forall|k: int| 0 <= k < n ==> participants[k] == consumed(old(participants)[k]),
            forall|k: int| n <= k < participants.len() ==> participants[k] == old(participants)[k],
        decreases participants.len() - n,
    {
        let p: Participant = participants[n];
        match p.proof {
            OwnershipProof::Regular(_) => {},
            OwnershipProof::Free(dep) => {
                let used = FreeDeposit {
                    user: dep.user,
                    pool_type: dep.pool_type,
                    is_active: false,
                    amount: dep.amount,
                    referrer: dep.referrer,
                    bump: dep.bump,
                };
                participants.set(
                    n,
                    Participant { proof: OwnershipProof::Free(used), destination: p.destination },
                );
            },
        }
        n += 1;
    }
    assert(participants@ =~= old(participants)@.map_values(|p: Participant| consumed(p)));
    pool.round_number = next_number;
    pool.round_start_time = pool.round_end_time;
    pool.round_end_time = next_end;
    pool.total_deposited = 0;
    pool.free_bet_total = 0;
    pool.regular_count = 0;
    pool.free_count = 0;
    pool.rollover = split.rollover_amount;
    Ok(settlement)
}

} // verus!
