use royalpot::address::Address;
use royalpot::airdrop::{
    claim_profit_airdrop, initialize_airdrop, record_profit, AirdropClaimed, AirdropErrorCode,
    AirdropInitialized, AirdropState, ProfitRecorded, UserAirdrop,
};

fn addr(n: u8) -> Address {
    Address { bytes: [n; 32] }
}

fn blank() -> UserAirdrop {
    UserAirdrop {
        owner: addr(0),
        has_participated: false,
        first_participation_time: 0,
        total_profit: 0,
        eligible_airdrop: 0,
        has_claimed: false,
        claimed_amount: 0,
        claim_time: 0,
    }
}

#[test]
fn the_airdrop_starts_with_its_whole_budget() {
    let (s, e) = initialize_airdrop(addr(1), addr(2), 1_000, 3);
    assert_eq!(
        s,
        AirdropState {
            authority: addr(1),
            token_mint: addr(2),
            total_airdrop: 1_000,
            claimed_amount: 0,
            remaining_amount: 1_000,
            participant_count: 0,
            claimed_count: 0,
            bump: 3,
        }
    );
    assert_eq!(e, AirdropInitialized { total_airdrop: 1_000 });
}

#[test]
fn profit_makes_eligible_for_ten_times_up_to_the_cap() {
    let (mut s, _) = initialize_airdrop(addr(1), addr(2), 50_000_000_000_000, 3);
    let mut u = blank();
    assert_eq!(
        record_profit(&mut s, &mut u, addr(7), 2_000_000_000, 111),
        Ok(ProfitRecorded {
            user: addr(7),
            profit_amount: 2_000_000_000,
            total_profit: 2_000_000_000,
            eligible_airdrop: 20_000_000_000,
        })
    );
    assert_eq!(u.owner, addr(7));
    assert!(u.has_participated);
    assert_eq!(u.first_participation_time, 111);
    assert_eq!(s.participant_count, 1);

    let again = record_profit(&mut s, &mut u, addr(7), 3_000_000_000_000, 222).unwrap();
    assert_eq!(again.total_profit, 3_002_000_000_000);
    assert_eq!(again.eligible_airdrop, 10_000_000_000_000);
    assert_eq!(u.first_participation_time, 111);
    assert_eq!(s.participant_count, 1);
}

#[test]
fn record_profit_errors() {
    let (mut s, _) = initialize_airdrop(addr(1), addr(2), 1_000, 3);
    let mut u = blank();
    assert_eq!(record_profit(&mut s, &mut u, addr(7), 0, 1), Err(AirdropErrorCode::InvalidProfit));
    assert_eq!(
        record_profit(&mut s, &mut u, addr(7), u64::MAX, 1),
        Err(AirdropErrorCode::MathOverflow)
    );
    assert_eq!(u, blank());
    assert_eq!(s.participant_count, 0);
    let mut crowded = s;
    crowded.participant_count = u32::MAX;
    assert_eq!(
        record_profit(&mut crowded, &mut u, addr(7), 5, 1),
        Err(AirdropErrorCode::MathOverflow)
    );
    let mut known = blank();
    known.has_participated = true;
    known.total_profit = u64::MAX / 10 - 1;
    assert_eq!(record_profit(&mut crowded, &mut known, addr(7), 1, 1).unwrap().total_profit, u64::MAX / 10);
    assert_eq!(
        record_profit(&mut crowded, &mut known, addr(7), 1, 1),
        Err(AirdropErrorCode::MathOverflow)
    );
}

#[test]
fn an_airdrop_is_claimed_once() {
    let (mut s, _) = initialize_airdrop(addr(1), addr(2), 50_000_000_000, 3);
    let mut u = blank();
    record_profit(&mut s, &mut u, addr(7), 2_000_000_000, 111).unwrap();
    assert_eq!(
        claim_profit_airdrop(&mut s, &mut u, 333),
        Ok(AirdropClaimed { user: addr(7), amount: 20_000_000_000, profit_based_on: 2_000_000_000 })
    );
    assert!(u.has_claimed);
    assert_eq!(u.claimed_amount, 20_000_000_000);
    assert_eq!(u.claim_time, 333);
    assert_eq!(s.claimed_amount, 20_000_000_000);
    assert_eq!(s.remaining_amount, 30_000_000_000);
    assert_eq!(s.claimed_count, 1);
    let after = (s, u);
    assert_eq!(
        claim_profit_airdrop(&mut s, &mut u, 444),
        Err(AirdropErrorCode::AlreadyClaimedAirdrop)
    );
    assert_eq!((s, u), after);

    let later = record_profit(&mut s, &mut u, addr(7), 1_000_000_000, 555).unwrap();
    assert_eq!(later.eligible_airdrop, 10_000_000_000);
}

#[test]
fn a_claim_is_capped_by_what_is_left() {
    let (mut s, _) = initialize_airdrop(addr(1), addr(2), 5, 3);
    let mut u = blank();
    record_profit(&mut s, &mut u, addr(7), 2_000_000_000, 111).unwrap();
    assert_eq!(claim_profit_airdrop(&mut s, &mut u, 333).unwrap().amount, 5);
    assert_eq!(s.remaining_amount, 0);
    let mut v = blank();
    record_profit(&mut s, &mut v, addr(8), 2_000_000_000, 111).unwrap();
    assert_eq!(claim_profit_airdrop(&mut s, &mut v, 333), Err(AirdropErrorCode::AirdropExhausted));
    assert!(!v.has_claimed);
}

#[test]
fn claim_errors() {
    let (mut s, _) = initialize_airdrop(addr(1), addr(2), 50_000_000_000, 3);
    let mut u = blank();
    assert_eq!(claim_profit_airdrop(&mut s, &mut u, 1), Err(AirdropErrorCode::NotParticipated));
    record_profit(&mut s, &mut u, addr(7), 999_999_999, 111).unwrap();
    assert_eq!(claim_profit_airdrop(&mut s, &mut u, 1), Err(AirdropErrorCode::InsufficientProfit));
    let mut none = u;
    none.total_profit = 1_000_000_000;
    none.eligible_airdrop = 0;
    assert_eq!(claim_profit_airdrop(&mut s, &mut none, 1), Err(AirdropErrorCode::NoEligibleAirdrop));
    let mut ok = none;
    ok.eligible_airdrop = 7;
    let mut full = s;
    full.claimed_amount = u64::MAX;
    assert_eq!(claim_profit_airdrop(&mut full, &mut ok, 1), Err(AirdropErrorCode::MathOverflow));
    full.claimed_amount = 0;
    full.claimed_count = u32::MAX;
    assert_eq!(claim_profit_airdrop(&mut full, &mut ok, 1), Err(AirdropErrorCode::MathOverflow));
    assert!(!ok.has_claimed);
}
