use vstd::prelude::*;
use crate::address::Address;
use crate::constants::{FREE_BET_AMOUNT, LOCK_PERIOD};
use crate::error::ErrorCode;
use crate::events::{Deposited, FreeBetActivated};
use crate::state::{
    pool_type_from_u8, spec_pool_type, AirdropClaim, FreeDeposit, GlobalState, PoolState,
    UserDeposit,
};

verus! {

/// What an accepted deposit asks its caller to store and to carry out.
#[derive(Clone, Copy, Debug, PartialEq, Eq)]
pub struct DepositReceipt {
    /// The deposit record to create for this user, pool and round.
    pub record: UserDeposit,
    /// Amounts to move into the pool vault: `amount` from the user and
    /// `matched` from the reserve.
    pub event: Deposited,
}

/// What an activated promotional bet asks its caller to store and carry out.
#[derive(Clone, Copy, Debug, PartialEq, Eq)]
pub struct FreeBetReceipt {
    pub record: FreeDeposit,
    pub event: FreeBetActivated,
}

/// Deposits are open strictly before the lock window at the end of the round.
pub open spec fn betting_open(pool: PoolState, now: i64) -> bool {
    now < pool.round_end_time - 300
}

/// What the reserve adds to a deposit: in the daily pool as much again, as
/// far as the reserve reaches; elsewhere nothing.
pub open spec fn matched_of(pool_type: u8, amount: u64, reserve_balance: u64) -> u64 {
    if pool_type == 2 {
        if amount <= reserve_balance {
            amount
        } else {
            reserve_balance
        }
    } else {
        0
    }
}

/// Whether a record is the one of this user, pool and round.
pub open spec fn has_key(record: UserDeposit, user: Address, pool_type: u8, round_number: u64) -> bool {
    record.user == user && record.pool_type == pool_type && record.round_number == round_number
}

/// Whether the record handed in is one of this user in the pool's running
/// round.
pub open spec fn already_deposited(
    pool: PoolState,
    existing: Option<UserDeposit>,
    user: Address,
) -> bool {
    existing is Some && has_key(existing.unwrap(), user, pool.pool_type, pool.round_number)
}

/// Why a deposit is rejected, if it is. A record of this user in the pool's
/// running round comes before every other reason.
pub open spec fn deposit_error(
    pool: PoolState,
    existing: Option<UserDeposit>,
    user: Address,
    amount: u64,
    reserve_balance: u64,
    now: i64,
) -> Option<ErrorCode> {
    if already_deposited(pool, existing, user) {
        Some(ErrorCode::AlreadyDeposited)
    } else {
        deposit_checks(pool, amount, reserve_balance, now)
    }
}

/// Why a first deposit of a user in a round is rejected, if it is.
pub open spec fn deposit_checks(
    pool: PoolState,
    amount: u64,
    reserve_balance: u64,
    now: i64,
) -> Option<ErrorCode> {
    match spec_pool_type(pool.pool_type) {
        None => Some(ErrorCode::InvalidPoolType),
        Some(pt) => if !betting_open(pool, now) {
            Some(ErrorCode::BettingClosed)
        } else if amount < pt.spec_min_deposit() {
            Some(ErrorCode::BelowMinimum)
        } else if pool.total_deposited + amount + matched_of(
            pool.pool_type,
            amount,
            reserve_balance,
        ) > u64::MAX || pool.regular_count + 1 > u32::MAX {
            Some(ErrorCode::MathOverflow)
        } else {
            None
        },
    }
}

/// The pool after a deposit: one more regular participant, and the total
/// grown by the amount and what the reserve matched.
pub open spec fn pool_after_deposit(pool: PoolState, amount: u64, reserve_balance: u64) -> PoolState {
    PoolState {
        total_deposited: (pool.total_deposited + amount + matched_of(
            pool.pool_type,
            amount,
            reserve_balance,
        )) as u64,
        regular_count: (pool.regular_count + 1) as u32,
        ..pool
    }
}

/// Whether the record handed in is an active promotional bet of this user
/// in this pool.
pub open spec fn already_active(existing: Option<FreeDeposit>, user: Address, pool_type: u8) -> bool {
    existing is Some && existing.unwrap().is_active && existing.unwrap().user == user
        && existing.unwrap().pool_type == pool_type
}

/// Why a promotional bet is rejected, if it is.
pub open spec fn free_bet_error(
    pool: PoolState,
    claim: AirdropClaim,
    existing: Option<FreeDeposit>,
    user: Address,
    pool_type: u8,
    now: i64,
) -> Option<ErrorCode> {
    if pool_type != 2 {
        Some(ErrorCode::FreeBetDailyOnly)
    } else if pool.pool_type != pool_type {
        Some(ErrorCode::InvalidPoolType)
    } else if !betting_open(pool, now) {
        Some(ErrorCode::BettingClosed)
    } else if !claim.free_bet_available {
        Some(ErrorCode::NoFreeBetAvailable)
    } else if already_active(existing, user, pool_type) {
        Some(ErrorCode::FreeBetAlreadyActive)
    } else if pool.free_bet_total + 100_000_000_000 > u64::MAX || pool.free_count + 1 > u32::MAX {
        Some(ErrorCode::MathOverflow)
    } else {
        None
    }
}

/// Whether deposits are still open at `now`.
fn is_betting_open(pool: &PoolState, now: i64) -> (open: bool)
    ensures
        open == betting_open(*pool, now),
{
    (now as i128) < (pool.round_end_time as i128) - (LOCK_PERIOD as i128)
}

/// Builds the protocol-wide configuration.
pub fn initialize(
    token_mint: Address,
    airdrop_vault: Address,
    platform_fee_vault: Address,
    referral_vault: Address,
    reserve_vault: Address,
    prize_escrow_vault: Address,
    bump: u8,
) -> (state: GlobalState)
    ensures
        state == (GlobalState {
            token_mint,
            platform_fee_vault,
            airdrop_vault,
            referral_vault,
            reserve_vault,
            prize_escrow_vault,
            bump,
        }),
{
    GlobalState {
        token_mint,
        platform_fee_vault,
        airdrop_vault,
        referral_vault,
        reserve_vault,
        prize_escrow_vault,
        bump,
    }
}

/// Opens the first round of a pool: round 1 from `initial_start_time` for the
/// pool's duration, with nothing deposited and nothing rolled over.
pub fn initialize_pool(pool_type: u8, initial_start_time: i64, vault: Address, bump: u8) -> (r:
    Result<PoolState, ErrorCode>)
    ensures
        match spec_pool_type(pool_type) {
            None => r == Err::<PoolState, ErrorCode>(ErrorCode::InvalidPoolType),
            Some(pt) => if initial_start_time + pt.spec_duration() > i64::MAX {
                r == Err::<PoolState, ErrorCode>(ErrorCode::MathOverflow)
            } else {
                r == Ok::<PoolState, ErrorCode>(
                    PoolState {
                        pool_type,
                        round_number: 1,
                        round_start_time: initial_start_time,
                        round_end_time: (initial_start_time + pt.spec_duration()) as i64,
                        total_deposited: 0,
                        free_bet_total: 0,
                        regular_count: 0,
                        free_count: 0,
                        vault,
                        rollover: 0,
                        bump,
                    },
                )
            },
        },
{
    let pt = match pool_type_from_u8(pool_type) {
        Ok(pt) => pt,
        Err(e) => {
            return Err(e);
        },
    };
    let end: i64 = match initial_start_time.checked_add(pt.duration()) {
        Some(t) => t,
        None => {
            return Err(ErrorCode::MathOverflow);
        },
    };
    Ok(
        PoolState {
            pool_type,
            round_number: 1,
            round_start_time: initial_start_time,
            round_end_time: end,
            total_deposited: 0,
            free_bet_total: 0,
            regular_count: 0,
            free_count: 0,
            vault,
            rollover: 0,
            bump,
        },
    )
}

/// Accepts a regular deposit into the running round: before the lock window
/// and at least the pool's minimum. The pool counts one more participant and
/// its total grows by the amount plus, in the daily pool, as much again from
/// the reserve as far as it reaches. The referrer is only recorded: nothing
/// is paid to them here.
///
/// A user deposits once per round: `existing` is the record that the store of
/// deposit records holds for this user, pool and round, if it holds one, and
/// with such a record the deposit is rejected before anything else is looked
/// at. A record of another user, pool or round does not stand in the way. A
/// rejected deposit leaves the pool as it was.
pub fn deposit(
    pool: &mut PoolState,
    existing: Option<UserDeposit>,
    user: Address,
    amount: u64,
    referrer: Option<Address>,
    reserve_balance: u64,
    now: i64,
    bump: u8,
) -> (r: Result<DepositReceipt, ErrorCode>)
    ensures
        match deposit_error(*old(pool), existing, user, amount, reserve_balance, now) {
            Some(e) => r == Err::<DepositReceipt, ErrorCode>(e) && *final(pool) == *old(pool),
            None => {
                &&& r is Ok
                &&& *final(pool) == pool_after_deposit(*old(pool), amount, reserve_balance)
                &&& r.unwrap().record.user == user
                &&& r.unwrap().record.pool_type == old(pool).pool_type
                &&& r.unwrap().record.round_number == old(pool).round_number
                &&& r.unwrap().record.amount == amount
                &&& r.unwrap().record.bump == bump
                &&& match referrer {
                    Some(a) => r.unwrap().record.referrer == a,
                    None => r.unwrap().record.referrer.is_none(),
                }
                &&& r.unwrap().event == (Deposited {
                    pool_type: old(pool).pool_type,
                    round_number: old(pool).round_number,
                    user,
                    amount,
                    matched: matched_of(old(pool).pool_type, amount, reserve_balance),
                    timestamp: now,
                })
            },
        },
{
    match existing {
        Some(record) => {
            if record.pool_type == pool.pool_type && record.round_number == pool.round_number
                && record.user.same(&user) {
                return Err(ErrorCode::AlreadyDeposited);
            }
        },
        None => {},
    }
    let pt = match pool_type_from_u8(pool.pool_type) {
        Ok(pt) => pt,
        Err(e) => {
            return Err(e);
        },
    };
    if !is_betting_open(pool, now) {
        return Err(ErrorCode::BettingClosed);
    }
    if amount < pt.min_deposit() {
        return Err(ErrorCode::BelowMinimum);
    }
    let matched: u64 = if pool.pool_type == 2 {
        if amount <= reserve_balance {
            amount
        } else {
            reserve_balance
        }
    } else {
        0
    };
    let with_amount: u64 = match pool.total_deposited.checked_add(amount) {
        Some(v) => v,
        None => {
            return Err(ErrorCode::MathOverflow);
        },
    };
    let count: u32 = match pool.regular_count.checked_add(1) {
        Some(v) => v,
        None => {
            return Err(ErrorCode::MathOverflow);
        },
    };
    let with_match: u64 = match with_amount.checked_add(matched) {
        Some(v) => v,
        None => {
            return Err(ErrorCode::MathOverflow);
        },
    };
    let record = UserDeposit {
        user,
        pool_type: pool.pool_type,
        round_number: pool.round_number,
        amount,
        referrer: match referrer {
            Some(a) => a,
            None => Address::none(),
        },
        bump,
    };
    let event = Deposited {
        pool_type: pool.pool_type,
        round_number: pool.round_number,
        user,
        amount,
        matched,
        timestamp: now,
    };
    pool.total_deposited = with_match;
    pool.regular_count = count;
    Ok(DepositReceipt { record, event })
}

/// Registers a user for their one promotional bet.
pub fn claim_free_airdrop(user: Address, bump: u8) -> (claim: AirdropClaim)
    ensures
        claim == (AirdropClaim { user, free_bet_available: true, bump }),
{
    AirdropClaim { user, free_bet_available: true, bump }
}

/// Turns a user's grant into an active promotional bet in the daily pool:
/// before the lock window, with the grant still unused and no active bet of
/// this user in the pool. The grant is used up and the pool counts one more
/// promotional participant with the fixed promotional amount.
///
/// `existing` is the promotional record that the store holds for this user
/// and pool, if it holds one; only an active one stands in the way.
///
/// A rejected call leaves the pool and the grant as they were.
pub fn use_free_bet(
    pool: &mut PoolState,
    claim: &mut AirdropClaim,
    existing: Option<FreeDeposit>,
    user: Address,
    pool_type: u8,
    now: i64,
    bump: u8,
) -> (r: Result<FreeBetReceipt, ErrorCode>)
    ensures
        match free_bet_error(*old(pool), *old(claim), existing, user, pool_type, now) {
            Some(e) => r == Err::<FreeBetReceipt, ErrorCode>(e) && *final(pool) == *old(pool)
                && *final(claim) == *old(claim),
            None => {
                &&& r is Ok
                &&& *final(pool) == (PoolState {
                    free_bet_total: (old(pool).free_bet_total + 100_000_000_000) as u64,
                    free_count: (old(pool).free_count + 1) as u32,
                    ..*old(pool)
                })
                &&& *final(claim) == (AirdropClaim { free_bet_available: false, ..*old(claim) })
                &&& r.unwrap().record.user == user
                &&& r.unwrap().record.pool_type == pool_type
                &&& r.unwrap().record.is_active
                &&& r.unwrap().record.amount == 100_000_000_000
                &&& r.unwrap().record.referrer.is_none()
                &&& r.unwrap().record.bump == bump
                &&& r.unwrap().event == (FreeBetActivated { pool_type, user, timestamp: now })
            },
        },
{
    if pool_type != 2 {
        return Err(ErrorCode::FreeBetDailyOnly);
    }
    if pool.pool_type != pool_type {
        return Err(ErrorCode::InvalidPoolType);
    }
    if !is_betting_open(pool, now) {
        return Err(ErrorCode::BettingClosed);
    }
    if !claim.free_bet_available {
        return Err(ErrorCode::NoFreeBetAvailable);
    }
    match existing {
        Some(bet) => {
            if bet.is_active && bet.pool_type == pool_type && bet.user.same(&user) {
                return Err(ErrorCode::FreeBetAlreadyActive);
            }
        },
        None => {},
    }
    let total: u64 = match pool.free_bet_total.checked_add(FREE_BET_AMOUNT) {
        Some(v) => v,
        None => {
            return Err(ErrorCode::MathOverflow);
        },
    };
    let count: u32 = match pool.free_count.checked_add(1) {
        Some(v) => v,
        None => {
            return Err(ErrorCode::MathOverflow);
        },
    };
    let record = FreeDeposit {
        user,
        pool_type,
        is_active: true,
        amount: FREE_BET_AMOUNT,
        referrer: Address::none(),
        bump,
    };
    claim.free_bet_available = false;
    pool.free_bet_total = total;
    pool.free_count = count;
    Ok(FreeBetReceipt { record, event: FreeBetActivated { pool_type, user, timestamp: now } })
}

/// The deposit records of all users, pools and rounds. A record is created
/// under the key of its user, pool and round, and creation fails where the
/// key is taken: this is what keeps a user from depositing twice in a round.
#[derive(Debug, PartialEq, Eq)]
pub struct DepositLedger {
    pub records: Vec<UserDeposit>,
}

impl DepositLedger {
    /// Whether a record exists for this user, pool and round.
    pub open spec fn holds(&self, user: Address, pool_type: u8, round_number: u64) -> bool {
        exists|i: int|
            0 <= i < self.records@.len() && has_key(
                #[trigger] self.records@[i],
                user,
                pool_type,
                round_number,
            )
    }

    /// No two records share a key.
    pub open spec fn wf(&self) -> bool {
        forall|i: int, j: int|
            0 <= i < j < self.records@.len() ==> !has_key(
                #[trigger] self.records@[i],
                (#[trigger] self.records@[j]).user,
                self.records@[j].pool_type,
                self.records@[j].round_number,
            )
    }

    /// A ledger without records.
    pub fn new() -> (ledger: DepositLedger)
        ensures
            ledger.records@.len() == 0,
            ledger.wf(),
    {
        DepositLedger { records: Vec::new() }
    }

    /// The position of the record of this user, pool and round, if there is
    /// one.
    pub fn find(&self, user: &Address, pool_type: u8, round_number: u64) -> (r: Option<usize>)
        ensures
            r is Some <==> self.holds(*user, pool_type, round_number),
            r is Some ==> r.unwrap() < self.records@.len() && has_key(
                self.records@[r.unwrap() as int],
                *user,
                pool_type,
                round_number,
            ),
    {
        let mut i: usize = 0;
        while i < self.records.len()
            invariant
                i <= self.records.len(),
                forall|k: int|
                    0 <= k < i ==> !has_key(
                        #[trigger] self.records@[k],
                        *user,
                        pool_type,
                        round_number,
                    ),
            decreases self.records.len() - i,
        {
            let record: &UserDeposit = &self.records[i];
            if record.pool_type == pool_type && record.round_number == round_number
                && record.user.same(user) {
                return Some(i);
            }
            i += 1;
        }
        None
    }

    /// Creates a record under its key, or fails where the key is taken.
    pub fn create(&mut self, record: UserDeposit) -> (r: Result<(), ErrorCode>)
        ensures
            old(self).holds(record.user, record.pool_type, record.round_number) ==> r == Err::<
                (),
                ErrorCode,
            >(ErrorCode::AlreadyDeposited) && final(self).records@ == old(self).records@,
            !old(self).holds(record.user, record.pool_type, record.round_number) ==> r is Ok
                && final(self).records@ == old(self).records@.push(record),
            old(self).wf() ==> final(self).wf(),
            r is Ok ==> final(self).holds(record.user, record.pool_type, record.round_number),
    {
        match self.find(&record.user, record.pool_type, record.round_number) {
            Some(_) => Err(ErrorCode::AlreadyDeposited),
            None => {
                self.records.push(record);
                assert(has_key(
                    self.records@[self.records@.len() - 1],
                    record.user,
                    record.pool_type,
                    record.round_number,
                ));
                assert(old(self).wf() ==> self.wf()) by {
                    if old(self).wf() {
                        assert forall|i: int, j: int|
                            0 <= i < j < self.records@.len() implies !has_key(
                            #[trigger] self.records@[i],
                            (#[trigger] self.records@[j]).user,
                            self.records@[j].pool_type,
                            self.records@[j].round_number,
                        ) by {
                            assert(self.records@[i] == old(self).records@[i]);
                            if j < old(self).records@.len() {
                                assert(self.records@[j] == old(self).records@[j]);
                            }
                        }
                    }
                }
                Ok(())
            },
        }
    }
}

/// Why a deposit through the ledger is rejected, if it is: a record for this
/// user in the pool's running round comes before every other reason.
pub open spec fn deposit_once_error(
    ledger: DepositLedger,
    pool: PoolState,
    user: Address,
    amount: u64,
    reserve_balance: u64,
    now: i64,
) -> Option<ErrorCode> {
    if ledger.holds(user, pool.pool_type, pool.round_number) {
        Some(ErrorCode::AlreadyDeposited)
    } else {
        deposit_checks(pool, amount, reserve_balance, now)
    }
}

/// Accepts a regular deposit against the ledger: looks up the record of this
/// user in the pool's running round, hands it to `deposit`, and creates the
/// new record where the deposit was accepted.
///
/// A rejected deposit leaves pool and ledger as they were.
pub fn deposit_once(
    ledger: &mut DepositLedger,
    pool: &mut PoolState,
    user: Address,
    amount: u64,
    referrer: Option<Address>,
    reserve_balance: u64,
    now: i64,
    bump: u8,
) -> (r: Result<DepositReceipt, ErrorCode>)
    ensures
        match deposit_once_error(*old(ledger), *old(pool), user, amount, reserve_balance, now) {
            Some(e) => r == Err::<DepositReceipt, ErrorCode>(e) && *final(pool) == *old(pool)
                && final(ledger).records@ == old(ledger).records@,
            None => {
                &&& r is Ok
                &&& *final(pool) == pool_after_deposit(*old(pool), amount, reserve_balance)
                &&& final(ledger).records@ == old(ledger).records@.push(r.unwrap().record)
                &&& has_key(r.unwrap().record, user, old(pool).pool_type, old(pool).round_number)
                &&& r.unwrap().record.amount == amount
                &&& r.unwrap().event.amount == amount
                &&& r.unwrap().event.matched == matched_of(
                    old(pool).pool_type,
                    amount,
                    reserve_balance,
                )
            },
        },
        old(ledger).wf() ==> final(ledger).wf(),
        r is Ok ==> final(ledger).holds(user, final(pool).pool_type, final(pool).round_number),
{
    let existing: Option<UserDeposit> = match ledger.find(
        &user,
        pool.pool_type,
        pool.round_number,
    ) {
        Some(at) => Some(ledger.records[at]),
        None => None,
    };
    let receipt: DepositReceipt = match deposit(
        pool,
        existing,
        user,
        amount,
        referrer,
        reserve_balance,
        now,
        bump,
    ) {
        Ok(receipt) => receipt,
        Err(e) => {
            return Err(e);
        },
    };
    match ledger.create(receipt.record) {
        Ok(_) => Ok(receipt),
        Err(e) => Err(e),
    }
}

/// One deposit per user and round: with the record of an accepted deposit in
/// hand, every further deposit of that user in that round is rejected as a
/// duplicate, whatever its amount and time; once the pool has moved on to
/// another round, that record no longer stands in the way.
pub proof fn lemma_one_deposit_per_round(
    pool: PoolState,
    record: UserDeposit,
    user: Address,
    amount: u64,
    reserve_balance: u64,
    now: i64,
)
    requires
        record.user == user,
        record.pool_type == pool.pool_type,
    ensures
        record.round_number == pool.round_number ==> deposit_error(
            pool,
            Some(record),
            user,
            amount,
            reserve_balance,
            now,
        ) == Some(ErrorCode::AlreadyDeposited),
        record.round_number != pool.round_number ==> deposit_error(
            pool,
            Some(record),
            user,
            amount,
            reserve_balance,
            now,
        ) == deposit_error(pool, None, user, amount, reserve_balance, now),
{
}

/// No double deposit: once a user's deposit in a round is on the ledger,
/// every further deposit of that user in that round is rejected as a
/// duplicate, whatever its amount and time.
pub proof fn lemma_no_double_deposit(
    ledger: DepositLedger,
    pool: PoolState,
    user: Address,
    amount: u64,
    reserve_balance: u64,
    now: i64,
)
    requires
        ledger.holds(user, pool.pool_type, pool.round_number),
    ensures
        deposit_once_error(ledger, pool, user, amount, reserve_balance, now) == Some(
            ErrorCode::AlreadyDeposited,
        ),
{
}

} // verus!
