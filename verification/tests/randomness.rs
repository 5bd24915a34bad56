use royalpot::randomness::{
    calculate_prize_amount, calculate_universal_prize, check_winner, generate_winning_numbers,
    ticket_number, DrawErrorCode, PrizeType, WinningNumbers,
};

fn counting_seed() -> [u8; 32] {
    let mut seed = [0u8; 32];
    for i in 0..32 {
        seed[i] = (i + 1) as u8;
    }
    seed
}

fn numbers() -> WinningNumbers {
    WinningNumbers {
        first_prize: 15,
        second_prizes: vec![48, 24],
        third_prizes: vec![25, 43, 19],
        lucky_prizes: vec![34, 4, 2, 3, 17],
    }
}

#[test]
fn winning_numbers_follow_the_digest_chain() {
    assert_eq!(
        generate_winning_numbers([0u8; 32], 1000),
        Ok(WinningNumbers {
            first_prize: 311,
            second_prizes: vec![236, 459],
            third_prizes: vec![951, 960, 820],
            lucky_prizes: vec![662, 907, 959, 346, 188],
        })
    );
    assert_eq!(generate_winning_numbers(counting_seed(), 50), Ok(numbers()));
}

#[test]
fn with_eleven_tickets_every_ticket_wins() {
    let w = generate_winning_numbers(counting_seed(), 11).unwrap();
    assert_eq!(w.first_prize, 9);
    assert_eq!(w.second_prizes, vec![10, 6]);
    assert_eq!(w.third_prizes, vec![7, 2, 3]);
    assert_eq!(w.lucky_prizes, vec![5, 8, 4, 11, 1]);
}

#[test]
fn winning_numbers_need_tickets() {
    assert_eq!(generate_winning_numbers([1u8; 32], 0), Err(DrawErrorCode::InvalidTicketCount));
    assert_eq!(generate_winning_numbers(counting_seed(), 10), Err(DrawErrorCode::TooManyAttempts));
    assert_eq!(generate_winning_numbers(counting_seed(), 1), Err(DrawErrorCode::TooManyAttempts));
}

#[test]
fn a_digest_names_a_ticket_from_one_to_max() {
    let mut digest = [0u8; 32];
    assert_eq!(ticket_number(&digest, 1000), 1);
    digest[0] = 9;
    assert_eq!(ticket_number(&digest, 1000), 10);
    assert_eq!(ticket_number(&digest, 1), 1);
    assert_eq!(ticket_number(&digest, 9), 1);
    digest[1] = 1;
    assert_eq!(ticket_number(&digest, 1000), 266);
    assert_eq!(ticket_number(&[0xFFu8; 32], u64::MAX), 1);
    assert_eq!(ticket_number(&[0xFFu8; 32], 10), 6);
}

#[test]
fn tickets_in_range_win_in_tier_order() {
    assert_eq!(
        check_winner((1, 20), &numbers()),
        vec![
            (PrizeType::First, 15),
            (PrizeType::Third, 19),
            (PrizeType::Lucky, 4),
            (PrizeType::Lucky, 2),
            (PrizeType::Lucky, 3),
            (PrizeType::Lucky, 17),
        ]
    );
    assert_eq!(check_winner((24, 25), &numbers()), vec![(PrizeType::Second, 24), (PrizeType::Third, 25)]);
    assert_eq!(check_winner((48, 48), &numbers()), vec![(PrizeType::Second, 48)]);
    assert_eq!(check_winner((5, 14), &numbers()), vec![]);
    assert_eq!(check_winner((20, 1), &numbers()), vec![]);
    assert_eq!(check_winner((0, u64::MAX), &numbers()).len(), 11);
}

#[test]
fn tier_amounts_per_winner() {
    assert_eq!(calculate_prize_amount(1_000_000, PrizeType::First), 300_000);
    assert_eq!(calculate_prize_amount(1_000_000, PrizeType::Second), 100_000);
    assert_eq!(calculate_prize_amount(1_000_000, PrizeType::Third), 50_000);
    assert_eq!(calculate_prize_amount(1_000_000, PrizeType::Lucky), 20_000);
    assert_eq!(calculate_prize_amount(1_000_000, PrizeType::Universal), 0);
    assert_eq!(calculate_prize_amount(u64::MAX, PrizeType::Universal), 0);
    assert_eq!(calculate_prize_amount(10_001, PrizeType::Third), 500);
    assert_eq!(calculate_prize_amount(9, PrizeType::First), 2);
}

#[test]
fn universal_prize_by_tickets() {
    assert_eq!(calculate_universal_prize(1_000_000, 3, 40), 15_000);
    assert_eq!(calculate_universal_prize(1_000_000, 3, 0), 0);
    assert_eq!(calculate_universal_prize(u64::MAX, u64::MAX, 0), 0);
    assert_eq!(calculate_universal_prize(1_000_000, 0, 40), 0);
    assert_eq!(calculate_universal_prize(999, 7, 3), 464);
}
