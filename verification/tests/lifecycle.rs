use royalpot::address::Address;
use royalpot::claims::{claim_prize_vesting, claim_referral};
use royalpot::draw::execute_draw;
use royalpot::participants::{OwnershipProof, Participant};
use royalpot::refund::execute_refund;
use royalpot::error::ErrorCode;
use royalpot::ledger::{
    claim_free_airdrop, deposit_once, initialize_pool, use_free_bet, DepositLedger,
};
use royalpot::round::{check_entry, round_phase, settlement_kind, RoundPhase, SettlementKind};
use royalpot::state::{FreeDeposit, PoolState};
use royalpot::winners::pick_winner_indices;

fn addr(n: u8) -> Address {
    Address { bytes: [n; 32] }
}

fn counting_seed() -> [u8; 32] {
    let mut seed = [0u8; 32];
    for i in 0..32 {
        seed[i] = (i + 1) as u8;
    }
    seed
}

fn regulars(ledger: &DepositLedger, pool: &PoolState) -> Vec<Participant> {
    ledger
        .records
        .iter()
        .filter(|d| d.pool_type == pool.pool_type && d.round_number == pool.round_number)
        .map(|d| Participant {
            proof: OwnershipProof::Regular(*d),
            destination: Address { bytes: [d.user.bytes[0] + 100; 32] },
        })
        .collect()
}

#[test]
fn a_round_moves_from_open_to_locked_to_drawable() {
    let pool = initialize_pool(1, 10_000, addr(200), 0).unwrap();
    assert_eq!(round_phase(&pool, i64::MIN), RoundPhase::Open);
    assert_eq!(round_phase(&pool, 10_000), RoundPhase::Open);
    assert_eq!(round_phase(&pool, 13_299), RoundPhase::Open);
    assert_eq!(round_phase(&pool, 13_300), RoundPhase::Locked);
    assert_eq!(round_phase(&pool, 13_599), RoundPhase::Locked);
    assert_eq!(round_phase(&pool, 13_600), RoundPhase::Drawable);
    assert_eq!(round_phase(&pool, i64::MAX), RoundPhase::Drawable);
    assert_eq!(settlement_kind(&pool), SettlementKind::Refund);
    let mut eleven = pool;
    eleven.regular_count = 8;
    eleven.free_count = 3;
    assert_eq!(settlement_kind(&eleven), SettlementKind::Refund);
    eleven.free_count = 4;
    assert_eq!(settlement_kind(&eleven), SettlementKind::Draw);
    eleven.regular_count = u32::MAX;
    eleven.free_count = u32::MAX;
    assert_eq!(settlement_kind(&eleven), SettlementKind::Draw);
}

#[test]
fn eight_minimum_deposits_are_refunded_in_full() {
    let mut daily = initialize_pool(2, 1_000_000, addr(200), 0).unwrap();
    let mut ledger = DepositLedger::new();
    for n in 0..8u8 {
        deposit_once(&mut ledger, &mut daily, addr(n), 100_000_000_000, None, 0, 1_000_500, 0)
            .unwrap();
    }
    let mut grant = claim_free_airdrop(addr(50), 0);
    let bet = use_free_bet(&mut daily, &mut grant, None, addr(50), 2, 1_000_600, 0).unwrap().record;
    assert_eq!(daily.total_deposited, 800_000_000_000);
    assert_eq!(daily.regular_count, 8);
    assert_eq!(daily.free_count, 1);

    let mut ps = regulars(&ledger, &daily);
    ps.push(Participant { proof: OwnershipProof::Free(bet), destination: addr(150) });
    let mut untouched = daily;
    assert_eq!(
        execute_draw(&mut untouched, &mut ps.clone(), addr(200), counting_seed(), 1_086_400, 0),
        Err(ErrorCode::ShouldUseRefund)
    );
    assert_eq!(
        execute_refund(&mut daily, &ps, addr(200), 1_086_399),
        Err(ErrorCode::TooEarlyForDraw)
    );

    let mut unchanged = daily;
    assert_eq!(
        execute_refund(&mut unchanged, &ps[..8].to_vec(), addr(200), 1_086_400),
        Err(ErrorCode::ParticipantCountMismatch)
    );
    assert_eq!(unchanged, daily);

    let s = execute_refund(&mut daily, &ps, addr(200), 1_086_400).unwrap();
    assert_eq!(s.refunds.len(), 8);
    assert!(s.refunds.iter().all(|r| r.destination != addr(150)));
    assert_eq!(ps[8].proof, OwnershipProof::Free(bet));
    for (n, refund) in s.refunds.iter().enumerate() {
        assert_eq!(refund.amount, 100_000_000_000);
        assert_eq!(refund.destination, addr(100 + n as u8));
    }
    assert_eq!(s.refunds.iter().map(|r| r.amount).sum::<u64>(), 800_000_000_000);
    assert_eq!(s.event.total_refunded, 800_000_000_000);
    assert_eq!(daily.round_number, 2);
    assert_eq!(daily.round_start_time, 1_086_400);
    assert_eq!(daily.round_end_time, 1_172_800);
    assert_eq!(daily.regular_count, 0);
    assert_eq!(daily.total_deposited, 0);
    assert_eq!(daily.free_count, 1);
    assert_eq!(daily.free_bet_total, 100_000_000_000);
    assert!(bet.is_active);

    assert!(deposit_once(
        &mut ledger,
        &mut daily,
        addr(0),
        100_000_000_000,
        None,
        0,
        1_086_500,
        0
    )
    .is_ok());
    assert_eq!(regulars(&ledger, &daily).len(), 1);
}

#[test]
fn matched_amounts_stay_in_the_pool_on_refund() {
    let mut daily = initialize_pool(2, 1_000_000, addr(200), 0).unwrap();
    let mut ledger = DepositLedger::new();
    deposit_once(
        &mut ledger,
        &mut daily,
        addr(1),
        100_000_000_000,
        None,
        100_000_000_000,
        1_000_500,
        0,
    )
    .unwrap();
    assert_eq!(daily.total_deposited, 200_000_000_000);
    let ps = regulars(&ledger, &daily);
    let s = execute_refund(&mut daily, &ps, addr(200), 1_086_400).unwrap();
    assert_eq!(s.refunds.iter().map(|r| r.amount).sum::<u64>(), 100_000_000_000);
    assert_eq!(s.event.total_refunded, 200_000_000_000);
}

#[test]
fn a_drawn_round_pays_prizes_vesting_and_referrals() {
    let mut daily = initialize_pool(2, 1_000_000, addr(200), 0).unwrap();
    let mut ledger = DepositLedger::new();
    for n in 0..12u8 {
        let referrer = if n == 3 { Some(addr(77)) } else { None };
        deposit_once(&mut ledger, &mut daily, addr(n), 100_000_000_000, referrer, 0, 1_000_500, 0)
            .unwrap();
    }
    let mut ps = regulars(&ledger, &daily);
    let mut bets: Vec<FreeDeposit> = Vec::new();
    for n in 12..15u8 {
        let mut grant = claim_free_airdrop(addr(n), 0);
        let bet = use_free_bet(&mut daily, &mut grant, None, addr(n), 2, 1_000_600, 0).unwrap();
        assert!(!grant.free_bet_available);
        bets.push(bet.record);
        ps.push(Participant {
            proof: OwnershipProof::Free(bet.record),
            destination: addr(100 + n),
        });
    }
    assert_eq!(daily.regular_count + daily.free_count, 15);

    let mut early = daily;
    assert_eq!(
        execute_refund(&mut early, &ps[..12].to_vec(), addr(200), 1_086_400),
        Err(ErrorCode::ShouldUseDraw)
    );

    let winners = pick_winner_indices(counting_seed(), 15);
    let s = execute_draw(&mut daily, &mut ps, addr(200), counting_seed(), 1_086_400, 0).unwrap();
    assert_eq!(daily.round_number, 2);
    assert_eq!(s.event.burn_amount, 1_500_000_000_000 * 3 / 100);
    assert_eq!(s.event.platform_amount, 1_500_000_000_000 * 2 / 100);
    let distributable = 1_500_000_000_000 - s.event.burn_amount - s.event.platform_amount
        - s.event.rollover_amount;
    assert_eq!(s.escrow_amount, distributable * 65 / 100);
    for i in 0..6 {
        assert_eq!(s.record.top_winners[i], addr(winners[i] as u8));
    }
    for p in &ps[12..] {
        match p.proof {
            OwnershipProof::Free(bet) => assert!(!bet.is_active),
            OwnershipProof::Regular(_) => panic!("a promotional record became a regular one"),
        }
    }

    let mut record = s.record;
    let first = record.top_winners[0];
    let day0 = claim_prize_vesting(&mut record, 0, first, 1_086_400).unwrap();
    assert_eq!(day0.claimed_amount, 406_125_000_000 / 20);
    let day1 = claim_prize_vesting(&mut record, 0, first, 1_086_400 + 25 * 3_600).unwrap();
    assert_eq!(day1.claimed_amount, 406_125_000_000 / 20);
    assert_eq!(record.top_claimed[0], 406_125_000_000 / 10);

    let referred = ledger.find(&addr(3), 2, 1).unwrap();
    let dep = &mut ledger.records[referred];
    assert_eq!(claim_referral(&record, dep, 2, 1, addr(77), u64::MAX), Ok(8_000_000_000));
    assert_eq!(claim_referral(&record, dep, 2, 1, addr(77), u64::MAX), Err(ErrorCode::NoReferral));
    let plain = ledger.find(&addr(4), 2, 1).unwrap();
    assert_eq!(
        claim_referral(&record, &mut ledger.records[plain], 2, 1, addr(77), u64::MAX),
        Err(ErrorCode::NoReferral)
    );
}

#[test]
fn a_refunded_round_pays_no_referral() {
    let mut hourly = initialize_pool(1, 0, addr(200), 0).unwrap();
    let mut ledger = DepositLedger::new();
    deposit_once(&mut ledger, &mut hourly, addr(1), 200_000_000_000, Some(addr(77)), 0, 10, 0)
        .unwrap();
    let first_round = regulars(&ledger, &hourly);
    execute_refund(&mut hourly, &first_round, addr(200), 3_600).unwrap();
    for n in 0..12u8 {
        deposit_once(&mut ledger, &mut hourly, addr(n), 200_000_000_000, None, 0, 3_700, 0)
            .unwrap();
    }
    let mut ps = regulars(&ledger, &hourly);
    let drawn = execute_draw(&mut hourly, &mut ps, addr(200), [9u8; 32], 7_200, 0).unwrap();
    assert_eq!(drawn.record.round_number, 2);
    let at = ledger.find(&addr(1), 1, 1).unwrap();
    assert_eq!(
        claim_referral(&drawn.record, &mut ledger.records[at], 1, 1, addr(77), 1_000),
        Err(ErrorCode::WrongRoundNumber)
    );
    assert_eq!(
        claim_referral(&drawn.record, &mut ledger.records[at], 1, 2, addr(77), 1_000),
        Err(ErrorCode::WrongRoundNumber)
    );
    assert_eq!(ledger.records[at].referrer, addr(77));
}

#[test]
fn entry_checks_come_in_order_before_any_record_is_read() {
    let mut pool = initialize_pool(2, 1_000_000, addr(200), 0).unwrap();
    pool.regular_count = 8;
    pool.free_count = 1;
    let refund = SettlementKind::Refund;
    let draw = SettlementKind::Draw;
    assert_eq!(check_entry(&pool, addr(200), 18, 1_086_400, refund), Ok(9));
    assert_eq!(check_entry(&pool, addr(1), 17, 1_086_399, draw), Err(ErrorCode::TooEarlyForDraw));
    assert_eq!(check_entry(&pool, addr(1), 17, 1_086_400, draw), Err(ErrorCode::VaultMismatch));
    assert_eq!(check_entry(&pool, addr(200), 17, 1_086_400, draw), Err(ErrorCode::ShouldUseRefund));
    for supplied in [0usize, 9, 16, 17, 19, usize::MAX] {
        assert_eq!(
            check_entry(&pool, addr(200), supplied, 1_086_400, refund),
            Err(ErrorCode::ParticipantCountMismatch)
        );
    }
    pool.free_count = 4;
    assert_eq!(check_entry(&pool, addr(200), 24, 1_086_400, draw), Ok(12));
    assert_eq!(check_entry(&pool, addr(200), 24, 1_086_400, refund), Err(ErrorCode::ShouldUseDraw));
    assert_eq!(
        check_entry(&pool, addr(200), 25, 1_086_400, draw),
        Err(ErrorCode::ParticipantCountMismatch)
    );
    pool.regular_count = u32::MAX;
    assert_eq!(check_entry(&pool, addr(200), 24, 1_086_400, draw), Err(ErrorCode::MathOverflow));
}
