use royalpot::address::Address;
use royalpot::error::ErrorCode;
use royalpot::events::{Deposited, FreeBetActivated};
use royalpot::ledger::{
    claim_free_airdrop, deposit, deposit_once, initialize, initialize_pool, use_free_bet,
    DepositLedger,
};
use royalpot::state::{
    pool_type_from_u8, AirdropClaim, FreeDeposit, GlobalState, PoolState, PoolType, UserDeposit,
};

fn addr(n: u8) -> Address {
    Address { bytes: [n; 32] }
}

fn pool(pool_type: u8) -> PoolState {
    initialize_pool(pool_type, 1_000_000, addr(200), 250).unwrap()
}

#[test]
fn addresses_compare_by_bytes() {
    assert!(addr(1).same(&addr(1)));
    assert!(!addr(1).same(&addr(2)));
    let mut almost = addr(1);
    almost.bytes[31] = 2;
    assert!(!almost.same(&addr(1)));
    assert!(Address::none().is_default());
    assert!(addr(0).is_default());
    assert!(!almost.is_default());
    assert_eq!(Address::none(), addr(0));
}

#[test]
fn pool_types_and_their_rules() {
    assert_eq!(pool_type_from_u8(0), Ok(PoolType::Min30));
    assert_eq!(pool_type_from_u8(1), Ok(PoolType::Hourly));
    assert_eq!(pool_type_from_u8(2), Ok(PoolType::Daily));
    assert_eq!(pool_type_from_u8(3), Err(ErrorCode::InvalidPoolType));
    assert_eq!(pool_type_from_u8(255), Err(ErrorCode::InvalidPoolType));
    assert_eq!(PoolType::Min30.duration(), 1_800);
    assert_eq!(PoolType::Hourly.duration(), 3_600);
    assert_eq!(PoolType::Daily.duration(), 86_400);
    assert_eq!(PoolType::Min30.min_deposit(), 500_000_000_000);
    assert_eq!(PoolType::Hourly.min_deposit(), 200_000_000_000);
    assert_eq!(PoolType::Daily.min_deposit(), 100_000_000_000);
}

#[test]
fn global_state_holds_what_it_was_given() {
    let g = initialize(addr(1), addr(2), addr(3), addr(4), addr(5), addr(6), 7);
    assert_eq!(
        g,
        GlobalState {
            token_mint: addr(1),
            airdrop_vault: addr(2),
            platform_fee_vault: addr(3),
            referral_vault: addr(4),
            reserve_vault: addr(5),
            prize_escrow_vault: addr(6),
            bump: 7,
        }
    );
}

#[test]
fn a_new_pool_opens_round_one() {
    assert_eq!(
        initialize_pool(1, 5_000, addr(9), 3),
        Ok(PoolState {
            pool_type: 1,
            round_number: 1,
            round_start_time: 5_000,
            round_end_time: 8_600,
            total_deposited: 0,
            free_bet_total: 0,
            regular_count: 0,
            free_count: 0,
            vault: addr(9),
            rollover: 0,
            bump: 3,
        })
    );
    assert_eq!(initialize_pool(0, -100, addr(9), 3).unwrap().round_end_time, 1_700);
    assert_eq!(initialize_pool(3, 5_000, addr(9), 3), Err(ErrorCode::InvalidPoolType));
    assert_eq!(initialize_pool(2, i64::MAX - 86_399, addr(9), 3), Err(ErrorCode::MathOverflow));
    assert_eq!(initialize_pool(2, i64::MAX - 86_400, addr(9), 3).unwrap().round_end_time, i64::MAX);
}

#[test]
fn deposit_counts_the_participant_and_records_the_referrer() {
    let mut p = pool(1);
    let r = deposit(&mut p, None, addr(1), 250_000_000_000, Some(addr(77)), 1_000, 1_000_100, 4).unwrap();
    assert_eq!(
        r.record,
        UserDeposit {
            user: addr(1),
            pool_type: 1,
            round_number: 1,
            amount: 250_000_000_000,
            referrer: addr(77),
            bump: 4,
        }
    );
    assert_eq!(
        r.event,
        Deposited {
            pool_type: 1,
            round_number: 1,
            user: addr(1),
            amount: 250_000_000_000,
            matched: 0,
            timestamp: 1_000_100,
        }
    );
    assert_eq!(p.total_deposited, 250_000_000_000);
    assert_eq!(p.regular_count, 1);

    let s = deposit(&mut p, None, addr(2), 200_000_000_000, None, 0, 1_000_200, 5).unwrap();
    assert!(s.record.referrer.is_default());
    assert_eq!(p.total_deposited, 450_000_000_000);
    assert_eq!(p.regular_count, 2);
    assert_eq!(p.round_number, 1);
}

#[test]
fn daily_deposits_are_matched_as_far_as_the_reserve_reaches() {
    let mut p = pool(2);
    let full = deposit(&mut p, None, addr(1), 100_000_000_000, None, 500_000_000_000, 1_000_000, 0);
    assert_eq!(full.unwrap().event.matched, 100_000_000_000);
    assert_eq!(p.total_deposited, 200_000_000_000);

    let part = deposit(&mut p, None, addr(2), 100_000_000_000, None, 30, 1_000_000, 0);
    assert_eq!(part.unwrap().event.matched, 30);
    assert_eq!(p.total_deposited, 300_000_000_030);

    let none = deposit(&mut p, None, addr(3), 100_000_000_000, None, 0, 1_000_000, 0);
    assert_eq!(none.unwrap().event.matched, 0);
    assert_eq!(p.total_deposited, 400_000_000_030);
    assert_eq!(p.regular_count, 3);
}

#[test]
fn deposits_close_with_the_lock_window() {
    let mut p = pool(2);
    let end = p.round_end_time;
    assert!(deposit(&mut p, None, addr(1), 100_000_000_000, None, 0, end - 301, 0).is_ok());
    let before = p;
    assert_eq!(
        deposit(&mut p, None, addr(2), 100_000_000_000, None, 0, end - 300, 0),
        Err(ErrorCode::BettingClosed)
    );
    assert_eq!(
        deposit(&mut p, None, addr(2), 100_000_000_000, None, 0, end, 0),
        Err(ErrorCode::BettingClosed)
    );
    assert_eq!(
        deposit(&mut p, None, addr(2), 100_000_000_000, None, 0, i64::MAX, 0),
        Err(ErrorCode::BettingClosed)
    );
    assert_eq!(p, before);
}

#[test]
fn deposit_errors() {
    let mut p = pool(0);
    let before = p;
    assert_eq!(
        deposit(&mut p, None, addr(1), 499_999_999_999, None, 0, 1_000_000, 0),
        Err(ErrorCode::BelowMinimum)
    );
    assert!(deposit(&mut p, None, addr(1), 500_000_000_000, None, 0, 1_000_000, 0).is_ok());

    let mut unknown = before;
    unknown.pool_type = 7;
    assert_eq!(
        deposit(&mut unknown, None, addr(1), 500_000_000_000, None, 0, 1_000_000, 0),
        Err(ErrorCode::InvalidPoolType)
    );

    let mut rich = before;
    rich.total_deposited = u64::MAX - 499_999_999_999;
    assert_eq!(
        deposit(&mut rich, None, addr(1), 500_000_000_000, None, 0, 1_000_000, 0),
        Err(ErrorCode::MathOverflow)
    );
    assert_eq!(rich.total_deposited, u64::MAX - 499_999_999_999);

    let mut crowded = before;
    crowded.regular_count = u32::MAX;
    assert_eq!(
        deposit(&mut crowded, None, addr(1), 500_000_000_000, None, 0, 1_000_000, 0),
        Err(ErrorCode::MathOverflow)
    );

    let mut matched = pool(2);
    matched.total_deposited = u64::MAX - 150_000_000_000;
    assert_eq!(
        deposit(&mut matched, None, addr(1), 100_000_000_000, None, 100_000_000_000, 1_000_000, 0),
        Err(ErrorCode::MathOverflow)
    );
    assert!(deposit(&mut matched, None, addr(1), 100_000_000_000, None, 50_000_000_000, 1_000_000, 0)
        .is_ok());
    assert_eq!(matched.total_deposited, u64::MAX);
}

#[test]
fn a_user_deposits_once_per_round() {
    let mut ledger = DepositLedger::new();
    let mut p = pool(1);
    let first =
        deposit_once(&mut ledger, &mut p, addr(1), 200_000_000_000, None, 0, 1_000_000, 0);
    assert!(first.is_ok());
    assert_eq!(ledger.records, vec![first.unwrap().record]);
    let after_first = p;

    assert_eq!(
        deposit_once(&mut ledger, &mut p, addr(1), 300_000_000_000, None, 0, 1_000_050, 0),
        Err(ErrorCode::AlreadyDeposited)
    );
    assert_eq!(p, after_first);
    assert_eq!(ledger.records.len(), 1);

    assert!(
        deposit_once(&mut ledger, &mut p, addr(2), 200_000_000_000, None, 0, 1_000_050, 0).is_ok()
    );
    assert_eq!(p.regular_count, 2);
    assert_eq!(ledger.find(&addr(2), 1, 1), Some(1));
    assert_eq!(ledger.find(&addr(1), 1, 1), Some(0));
    assert_eq!(ledger.find(&addr(1), 1, 2), None);
    assert_eq!(ledger.find(&addr(1), 2, 1), None);
    assert_eq!(ledger.find(&addr(3), 1, 1), None);

    let mut next_round = p;
    next_round.round_number = 2;
    next_round.round_end_time += 3_600;
    assert!(deposit_once(
        &mut ledger,
        &mut next_round,
        addr(1),
        200_000_000_000,
        None,
        0,
        1_003_700,
        0
    )
    .is_ok());
    assert_eq!(ledger.records.len(), 3);
}

#[test]
fn a_rejected_deposit_creates_no_record() {
    let mut ledger = DepositLedger::new();
    let mut p = pool(1);
    assert_eq!(
        deposit_once(&mut ledger, &mut p, addr(1), 1, None, 0, 1_000_000, 0),
        Err(ErrorCode::BelowMinimum)
    );
    assert!(ledger.records.is_empty());
    assert_eq!(
        ledger.create(UserDeposit {
            user: addr(1),
            pool_type: 1,
            round_number: 1,
            amount: 5,
            referrer: addr(0),
            bump: 0
        }),
        Ok(())
    );
    assert_eq!(
        ledger.create(UserDeposit {
            user: addr(1),
            pool_type: 1,
            round_number: 1,
            amount: 9,
            referrer: addr(3),
            bump: 1
        }),
        Err(ErrorCode::AlreadyDeposited)
    );
    assert_eq!(ledger.records.len(), 1);
    assert_eq!(ledger.records[0].amount, 5);
}

#[test]
fn a_grant_becomes_one_promotional_bet() {
    let mut p = pool(2);
    let mut claim = claim_free_airdrop(addr(8), 2);
    assert_eq!(claim, AirdropClaim { user: addr(8), free_bet_available: true, bump: 2 });
    let r = use_free_bet(&mut p, &mut claim, None, addr(8), 2, 1_000_000, 6).unwrap();
    assert_eq!(
        r.record,
        FreeDeposit {
            user: addr(8),
            pool_type: 2,
            is_active: true,
            amount: 100_000_000_000,
            referrer: addr(0),
            bump: 6,
        }
    );
    assert_eq!(r.event, FreeBetActivated { pool_type: 2, user: addr(8), timestamp: 1_000_000 });
    assert!(!claim.free_bet_available);
    assert_eq!(p.free_bet_total, 100_000_000_000);
    assert_eq!(p.free_count, 1);
    assert_eq!(p.total_deposited, 0);
    assert_eq!(p.regular_count, 0);

    let before = p;
    assert_eq!(
        use_free_bet(&mut p, &mut claim, Some(r.record), addr(8), 2, 1_000_000, 6),
        Err(ErrorCode::NoFreeBetAvailable)
    );
    assert_eq!(p, before);
}

#[test]
fn promotional_bet_errors() {
    let mut daily = pool(2);
    let mut hourly = pool(1);
    let fresh = claim_free_airdrop(addr(8), 2);
    let before = daily;

    let mut claim = fresh;
    assert_eq!(
        use_free_bet(&mut hourly, &mut claim, None, addr(8), 1, 1_000_000, 6),
        Err(ErrorCode::FreeBetDailyOnly)
    );
    assert_eq!(
        use_free_bet(&mut hourly, &mut claim, None, addr(8), 2, 1_000_000, 6),
        Err(ErrorCode::InvalidPoolType)
    );
    let locked_at = daily.round_end_time - 300;
    assert_eq!(
        use_free_bet(&mut daily, &mut claim, None, addr(8), 2, locked_at, 6),
        Err(ErrorCode::BettingClosed)
    );
    let active = FreeDeposit {
        user: addr(8),
        pool_type: 2,
        is_active: true,
        amount: 100_000_000_000,
        referrer: addr(0),
        bump: 6,
    };
    assert_eq!(
        use_free_bet(&mut daily, &mut claim, Some(active), addr(8), 2, 1_000_000, 6),
        Err(ErrorCode::FreeBetAlreadyActive)
    );
    let mut full = before;
    full.free_bet_total = u64::MAX;
    assert_eq!(
        use_free_bet(&mut full, &mut claim, None, addr(8), 2, 1_000_000, 6),
        Err(ErrorCode::MathOverflow)
    );
    assert_eq!(claim, fresh);
    assert_eq!(daily, before);

    let spent = FreeDeposit { is_active: false, ..active };
    assert!(use_free_bet(&mut daily, &mut claim, Some(spent), addr(8), 2, 1_000_000, 6).is_ok());
}

#[test]
fn a_second_deposit_of_a_user_in_a_round_is_rejected() {
    let mut p = pool(1);
    let first = deposit(&mut p, None, addr(1), 250_000_000_000, Some(addr(77)), 0, 1_000_100, 4)
        .unwrap()
        .record;
    let after_first = p;
    assert_eq!(
        deposit(&mut p, Some(first), addr(1), 300_000_000_000, None, 0, 1_000_200, 4),
        Err(ErrorCode::AlreadyDeposited)
    );
    assert_eq!(
        deposit(&mut p, Some(first), addr(1), 1, None, 0, i64::MAX, 4),
        Err(ErrorCode::AlreadyDeposited)
    );
    assert_eq!(p, after_first);
    assert_eq!(first.amount, 250_000_000_000);
    assert_eq!(first.referrer, addr(77));

    let other_user = deposit(&mut p, Some(first), addr(2), 200_000_000_000, None, 0, 1_000_200, 4);
    assert!(other_user.is_ok());
    assert_eq!(p.regular_count, 2);

    let mut next_round = p;
    next_round.round_number = 2;
    next_round.round_end_time += 3_600;
    next_round.regular_count = 0;
    next_round.total_deposited = 0;
    let again =
        deposit(&mut next_round, Some(first), addr(1), 200_000_000_000, None, 0, 1_003_700, 4);
    assert_eq!(again.unwrap().record.round_number, 2);
    assert_eq!(next_round.regular_count, 1);

    let mut other_pool = pool(0);
    assert!(
        deposit(&mut other_pool, Some(first), addr(1), 500_000_000_000, None, 0, 1_000_000, 4)
            .is_ok()
    );
}

#[test]
fn a_duplicate_is_reported_before_any_other_reason() {
    let mut p = pool(1);
    let first = deposit(&mut p, None, addr(1), 250_000_000_000, None, 0, 1_000_100, 4)
        .unwrap()
        .record;
    let end = p.round_end_time;
    assert_eq!(
        deposit(&mut p, Some(first), addr(1), 0, None, 0, end, 4),
        Err(ErrorCode::AlreadyDeposited)
    );
    assert_eq!(deposit(&mut p, None, addr(1), 0, None, 0, end, 4), Err(ErrorCode::BettingClosed));
}

#[test]
fn only_an_active_bet_of_the_same_user_and_pool_blocks_a_new_one() {
    let active = FreeDeposit {
        user: addr(8),
        pool_type: 2,
        is_active: true,
        amount: 100_000_000_000,
        referrer: addr(0),
        bump: 6,
    };
    let mut daily = pool(2);
    let mut claim = claim_free_airdrop(addr(8), 2);
    assert_eq!(
        use_free_bet(&mut daily, &mut claim, Some(active), addr(8), 2, 1_000_000, 6),
        Err(ErrorCode::FreeBetAlreadyActive)
    );
    let mut other = claim_free_airdrop(addr(9), 2);
    assert!(use_free_bet(&mut daily, &mut other, Some(active), addr(9), 2, 1_000_000, 6).is_ok());
    assert_eq!(daily.free_count, 1);
}
