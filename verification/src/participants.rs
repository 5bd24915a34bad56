use vstd::prelude::*;
use crate::address::Address;
use crate::error::ErrorCode;
use crate::state::{FreeDeposit, UserDeposit};

verus! {

/// The record by which a participant shows that they joined the round.
#[derive(Clone, Copy, Debug, PartialEq, Eq)]
pub enum OwnershipProof {
    Regular(UserDeposit),
    Free(FreeDeposit),
}

/// One participant of a round as the caller supplies it: the record of the
/// deposit and the destination of any payment.
#[derive(Clone, Copy, Debug, PartialEq, Eq)]
pub struct Participant {
    pub proof: OwnershipProof,
    pub destination: Address,
}

/// One payment out of the pool's vault.
#[derive(Clone, Copy, Debug, PartialEq, Eq)]
pub struct Payout {
    pub destination: Address,
    pub amount: u64,
}

/// The user behind a participant record.
pub open spec fn owner_of(p: Participant) -> Address {
    match p.proof {
        OwnershipProof::Regular(dep) => dep.user,
        OwnershipProof::Free(dep) => dep.user,
    }
}

/// Why a participant record is not accepted for this pool and round, if it is
/// not. A regular slot takes a regular deposit of this pool and round; a
/// promotional slot takes an active promotional bet of this pool.
pub open spec fn proof_error(
    p: Participant,
    is_regular: bool,
    pool_type: u8,
    round_number: u64,
) -> Option<ErrorCode> {
    match p.proof {
        OwnershipProof::Regular(dep) => {
            if !is_regular || dep.pool_type != pool_type {
                Some(ErrorCode::InvalidParticipant)
            } else if dep.round_number != round_number {
                Some(ErrorCode::WrongRoundNumber)
            } else {
                None
            }
        },
        OwnershipProof::Free(dep) => {
            if is_regular || dep.pool_type != pool_type || !dep.is_active {
                Some(ErrorCode::InvalidParticipant)
            } else {
                None
            }
        },
    }
}

/// The error of the first record from `from` on that is not accepted, where
/// the first `regular_count` slots are regular and the rest promotional.
pub open spec fn first_proof_error(
    ps: Seq<Participant>,
    regular_count: int,
    pool_type: u8,
    round_number: u64,
    from: int,
) -> Option<ErrorCode>
    decreases ps.len() - from,
{
    if from < 0 || from >= ps.len() {
        None
    } else {
        match proof_error(ps[from], from < regular_count, pool_type, round_number) {
            Some(e) => Some(e),
            None => first_proof_error(ps, regular_count, pool_type, round_number, from + 1),
        }
    }
}

/// The sum of a list of payments.
pub open spec fn payout_total(s: Seq<Payout>) -> int
    decreases s.len(),
{
    if s.len() == 0 {
        0
    } else {
        payout_total(s.drop_last()) + s.last().amount
    }
}

/// Where no record from `from` on is rejected, the record at `from` is
/// accepted and so is every later one.
pub proof fn lemma_accepted_from(
    ps: Seq<Participant>,
    regular_count: int,
    pool_type: u8,
    round_number: u64,
    from: int,
)
    requires
        0 <= from < ps.len(),
        first_proof_error(ps, regular_count, pool_type, round_number, from) is None,
    ensures
        proof_error(ps[from], from < regular_count, pool_type, round_number) is None,
        first_proof_error(ps, regular_count, pool_type, round_number, from + 1) is None,
{
}

/// Payments of one and the same amount add up to their number times it.
pub proof fn lemma_equal_payouts_total(s: Seq<Payout>, amount: u64)
    requires
        forall|k: int| 0 <= k < s.len() ==> (#[trigger] s[k]).amount == amount,
    ensures
        payout_total(s) == s.len() * amount,
    decreases s.len(),
{
    if s.len() > 0 {
        let head = s.drop_last();
        assert forall|k: int| 0 <= k < head.len() implies (#[trigger] head[k]).amount == amount by {
            assert(head[k] == s[k]);
        }
        lemma_equal_payouts_total(head, amount);
        assert(s.last() == s[s.len() - 1]);
        assert((s.len() - 1) * amount + amount == s.len() * amount) by (nonlinear_arith);
    }
}

/// The total of two lists of payments, one after the other, is the sum of
/// their totals.
pub proof fn lemma_payout_total_concat(a: Seq<Payout>, b: Seq<Payout>)
    ensures
        payout_total(a + b) == payout_total(a) + payout_total(b),
    decreases b.len(),
{
    if b.len() == 0 {
        assert(a + b =~= a);
    } else {
        lemma_payout_total_concat(a, b.drop_last());
        assert((a + b).drop_last() =~= a + b.drop_last());
        assert((a + b).last() == b.last());
    }
}

/// Reads the user behind a participant record after checking that the record
/// belongs to this pool and round.
pub fn read_participant_pubkey(
    p: &Participant,
    is_regular: bool,
    pool_type: u8,
    round_number: u64,
) -> (r: Result<Address, ErrorCode>)
    ensures
        match proof_error(*p, is_regular, pool_type, round_number) {
            Some(e) => r == Err::<Address, ErrorCode>(e),
            None => r == Ok::<Address, ErrorCode>(owner_of(*p)),
        },
{
    match p.proof {
        OwnershipProof::Regular(dep) => {
            if !is_regular || dep.pool_type != pool_type {
                Err(ErrorCode::InvalidParticipant)
            } else if dep.round_number != round_number {
                Err(ErrorCode::WrongRoundNumber)
            } else {
                Ok(dep.user)
            }
        },
        OwnershipProof::Free(dep) => {
            if is_regular || dep.pool_type != pool_type || !dep.is_active {
                Err(ErrorCode::InvalidParticipant)
            } else {
                Ok(dep.user)
            }
        },
    }
}

/// Checks every record in turn and reports the first that is not accepted.
pub(crate) fn check_participants(
    participants: &Vec<Participant>,
    regular_count: u32,
    pool_type: u8,
    round_number: u64,
) -> (r: Result<(), ErrorCode>)
    ensures
        match first_proof_error(participants@, regular_count as int, pool_type, round_number, 0) {
            Some(e) => r == Err::<(), ErrorCode>(e),
            None => r is Ok,
        },
{
    let mut i: usize = 0;
    while i < participants.len()
        invariant
            i <= participants.len(),
            first_proof_error(participants@, regular_count as int, pool_type, round_number, 0)
                == first_proof_error(
                participants@,
                regular_count as int,
                pool_type,
                round_number,
                i as int,
            ),
        decreases participants.len() - i,
    {
        let is_regular: bool = (i as u64) < (regular_count as u64);
        match read_participant_pubkey(&participants[i], is_regular, pool_type, round_number) {
            Err(e) => {
                return Err(e);
            },
            Ok(_) => {},
        }
        i += 1;
    }
    Ok(())
}

/// The user behind a participant record.
pub(crate) fn owner(p: &Participant) -> (user: Address)
    ensures
        user == owner_of(*p),
{
    match p.proof {
        OwnershipProof::Regular(dep) => dep.user,
        OwnershipProof::Free(dep) => dep.user,
    }
}

} // verus!
