use vstd::prelude::*;
use crate::address::Address;
use crate::state::PoolType;
use crate::winners::{read_seed_word, seed_word};

verus! {

/// The winning ticket numbers of a draw by tickets.
#[derive(Debug, PartialEq, Eq)]
pub struct WinningNumbers {
    pub first_prize: u64,
    pub second_prizes: Vec<u64>,
    pub third_prizes: Vec<u64>,
    pub lucky_prizes: Vec<u64>,
}

/// The outcome of a draw by tickets.
#[derive(Debug, PartialEq, Eq)]
pub struct DrawResult {
    pub pool_type: PoolType,
    pub draw_time: i64,
    pub total_pool: u64,
    pub total_tickets: u64,
    pub winners: Vec<WinnerInfo>,
    pub universal_prize_per_ticket: u64,
    pub rollover_amount: u64,
}

/// One winner of a draw by tickets.
#[derive(Debug, PartialEq, Eq)]
pub struct WinnerInfo {
    pub user: Address,
    pub prize_type: PrizeType,
    pub amount: u64,
    pub ticket_numbers: Vec<u64>,
}

/// The prize tiers.
#[derive(Clone, Copy, Debug, PartialEq, Eq, Structural)]
pub enum PrizeType {
    First,
    Second,
    Third,
    Lucky,
    Universal,
}

/// Why winning numbers could not be generated.
#[derive(Clone, Copy, Debug, PartialEq, Eq, Structural)]
pub enum DrawErrorCode {
    /// There are no tickets.
    InvalidTicketCount,
    /// A thousand numbers in a row were taken already.
    TooManyAttempts,
}

/// The SHA-256 digest of a byte string.
pub uninterp spec fn sha256(data: Seq<u8>) -> Seq<u8>;

/// The ticket number that a digest stands for among `max` tickets, from 1 to
/// `max`: its first eight bytes, read little-endian, modulo `max`, plus one.
pub open spec fn ticket_of(digest: Seq<u8>, max: u64) -> int {
    seed_word(digest) % (max as int) + 1
}

/// The search for a number that is not taken yet: hash the seed, try the
/// ticket of the digest, and go on from the digest if it is taken, for at
/// most `attempts` tries. Gives the number found, if any, and the seed that
/// the search ends with.
pub open spec fn unique_search(seed: Seq<u8>, max: u64, used: Seq<u64>, attempts: nat) -> (
    Option<u64>,
    Seq<u8>,
)
    decreases attempts,
{
    if attempts == 0 {
        (None, seed)
    } else {
        let digest = sha256(seed);
        let number = ticket_of(digest, max) as u64;
        if !used.contains(number) {
            (Some(number), digest)
        } else {
            unique_search(digest, max, used, (attempts - 1) as nat)
        }
    }
}

/// The first `count` winning numbers, each found by a search that starts at
/// the seed where the search before it ended and that avoids the numbers
/// found before it; nothing once a search has failed.
pub open spec fn numbers_drawn(seed: Seq<u8>, max: u64, count: nat) -> (Option<Seq<u64>>, Seq<u8>)
    decreases count,
{
    if count == 0 {
        (Some(Seq::empty()), seed)
    } else {
        let (before, at) = numbers_drawn(seed, max, (count - 1) as nat);
        match before {
            None => (None, at),
            Some(found) => {
                let (next, after) = unique_search(at, max, found, 1000);
                match next {
                    None => (None, after),
                    Some(number) => (Some(found.push(number)), after),
                }
            },
        }
    }
}

/// The winning numbers among the first `n` of `numbers` that lie in the
/// ticket range from `start` to `end`, each with its tier.
pub open spec fn hits(prize: PrizeType, numbers: Seq<u64>, start: u64, end: u64, n: int) -> Seq<
    (PrizeType, u64),
>
    decreases n,
{
    if n <= 0 {
        Seq::empty()
    } else {
        let before = hits(prize, numbers, start, end, n - 1);
        if start <= numbers[n - 1] <= end {
            before.push((prize, numbers[n - 1]))
        } else {
            before
        }
    }
}

/// The rate of a tier in basis points, all its winners together.
pub open spec fn tier_rate(prize: PrizeType) -> int {
    match prize {
        PrizeType::First => 3000,
        PrizeType::Second => 2000,
        PrizeType::Third => 1500,
        PrizeType::Lucky => 1000,
        PrizeType::Universal => 0,
    }
}

/// The number of winners that share a tier.
pub open spec fn tier_winners(prize: PrizeType) -> int {
    match prize {
        PrizeType::First => 1,
        PrizeType::Second => 2,
        PrizeType::Third => 3,
        PrizeType::Lucky => 5,
        PrizeType::Universal => 1,
    }
}

/// SHA-256 of the seed, computed by `anchor_lang::solana_program::hash::hash`;
/// `Hash::to_bytes` hands out the 32 bytes of the digest. The contract only
/// names the digest: that the function computes SHA-256 of exactly these
/// bytes is taken from the crate and not proved here.
#[verifier::external_body]
fn hash_seed(seed: &[u8; 32]) -> (digest: [u8; 32])
    ensures
        digest@ == sha256(seed@),
{
    anchor_lang::solana_program::hash::hash(seed).to_bytes()
}

/// The ticket number that a digest stands for among `max` tickets.
pub fn ticket_number(digest: &[u8; 32], max: u64) -> (number: u64)
    requires
        max > 0,
    ensures
        number == ticket_of(digest@, max),
        1 <= number <= max,
{
    read_seed_word(digest) % max + 1
}

/// Whether `number` is among `used`.
fn is_taken(used: &Vec<u64>, number: u64) -> (taken: bool)
    ensures
        taken == used@.contains(number),
{
    let mut i: usize = 0;
    while i < used.len()
        invariant
            i <= used.len(),
            forall|k: int| 0 <= k < i ==> used[k] != number,
        decreases used.len() - i,
    {
        if used[i] == number {
            return true;
        }
        i += 1;
    }
    false
}

/// Finds a ticket number that is not taken yet, hashing the seed anew for
/// every try and giving up after a thousand tries.
fn generate_unique_number(seed: &mut [u8; 32], max: u64, used: &Vec<u64>) -> (r: Result<
    u64,
    DrawErrorCode,
>)
    requires
        max > 0,
    ensures
        match unique_search(old(seed)@, max, used@, 1000).0 {
            Some(number) => r == Ok::<u64, DrawErrorCode>(number),
            None => r == Err::<u64, DrawErrorCode>(DrawErrorCode::TooManyAttempts),
        },
        final(seed)@ == unique_search(old(seed)@, max, used@, 1000).1,
        r is Ok ==> 1 <= r.unwrap() <= max && !used@.contains(r.unwrap()),
{
    let mut attempts: u32 = 0;
    while attempts < 1000
        invariant
            attempts <= 1000,
            max > 0,
            unique_search(old(seed)@, max, used@, 1000) == unique_search(
                seed@,
                max,
                used@,
                (1000 - attempts) as nat,
            ),
        decreases 1000 - attempts,
    {
        attempts += 1;
        *seed = hash_seed(seed);
        let number: u64 = ticket_number(seed, max);
        if !is_taken(used, number) {
            return Ok(number);
        }
    }
    Err(DrawErrorCode::TooManyAttempts)
}

/// Derives the eleven winning ticket numbers from a random seed: one first
/// prize, two second, three third and five lucky prizes, all different and
/// between 1 and `total_tickets`. Fails where there are no tickets, and where
/// a search for a free number gives up, as it must with fewer than eleven
/// tickets.
pub fn generate_winning_numbers(vrf_randomness: [u8; 32], total_tickets: u64) -> (r: Result<
    WinningNumbers,
    DrawErrorCode,
>)
    ensures
        total_tickets == 0 ==> r == Err::<WinningNumbers, DrawErrorCode>(
            DrawErrorCode::InvalidTicketCount,
        ),
        total_tickets > 0 ==> match numbers_drawn(vrf_randomness@, total_tickets, 11).0 {
            None => r == Err::<WinningNumbers, DrawErrorCode>(DrawErrorCode::TooManyAttempts),
            Some(numbers) => {
                &&& r is Ok
                &&& r.unwrap().first_prize == numbers[0]
                &&& r.unwrap().second_prizes@ == numbers.subrange(1, 3)
                &&& r.unwrap().third_prizes@ == numbers.subrange(3, 6)
                &&& r.unwrap().lucky_prizes@ == numbers.subrange(6, 11)
                &&& numbers.len() == 11
                &&& numbers.no_duplicates()
                &&& forall|k: int| 0 <= k < 11 ==> 1 <= #[trigger] numbers[k] <= total_tickets
            },
        },
{
    if total_tickets == 0 {
        return Err(DrawErrorCode::InvalidTicketCount);
    }
    let mut seed: [u8; 32] = vrf_randomness;
    let mut drawn: Vec<u64> = Vec::new();
    let mut count: usize = 0;
    while count < 11
        invariant
            count <= 11,
            total_tickets > 0,
            drawn.len() == count,
            numbers_drawn(vrf_randomness@, total_tickets, count as nat) == (Some(drawn@), seed@),
            drawn@.no_duplicates(),
            forall|k: int| 0 <= k < count ==> 1 <= #[trigger] drawn[k] <= total_tickets,
        decreases 11 - count,
    {
        let ghost before = drawn@;
        let number: u64 = match generate_unique_number(&mut seed, total_tickets, &drawn) {
            Ok(number) => number,
            Err(e) => {
                assert(numbers_drawn(vrf_randomness@, total_tickets, (count + 1) as nat).0 is None);
                proof {
                    lemma_failure_is_final(vrf_randomness@, total_tickets, (count + 1) as nat, 11);
                }
                return Err(e);
            },
        };
        drawn.push(number);
        assert(drawn@ == before.push(number));
        assert(drawn@.no_duplicates()) by {
            assert forall|a: int, b: int| 0 <= a < drawn@.len() && 0 <= b < drawn@.len() && a
                != b implies drawn@[a] != drawn@[b] by {
                if a < before.len() && b < before.len() {
                    assert(before[a] != before[b]);
                } else if a < before.len() {
                    assert(before.contains(before[a]));
                } else {
                    assert(before.contains(before[b]));
                }
            }
        }
        count += 1;
    }
    let mut second_prizes: Vec<u64> = Vec::new();
    second_prizes.push(drawn[1]);
    second_prizes.push(drawn[2]);
    let mut third_prizes: Vec<u64> = Vec::new();
    third_prizes.push(drawn[3]);
    third_prizes.push(drawn[4]);
    third_prizes.push(drawn[5]);
    let mut lucky_prizes: Vec<u64> = Vec::new();
    lucky_prizes.push(drawn[6]);
    lucky_prizes.push(drawn[7]);
    lucky_prizes.push(drawn[8]);
    lucky_prizes.push(drawn[9]);
    lucky_prizes.push(drawn[10]);
    assert(second_prizes@ =~= drawn@.subrange(1, 3));
    assert(third_prizes@ =~= drawn@.subrange(3, 6));
    assert(lucky_prizes@ =~= drawn@.subrange(6, 11));
    Ok(WinningNumbers { first_prize: drawn[0], second_prizes, third_prizes, lucky_prizes })
}

/// Once a search has failed, no later number is drawn.
pub proof fn lemma_failure_is_final(seed: Seq<u8>, max: u64, failed: nat, count: nat)
    requires
        failed <= count,
        numbers_drawn(seed, max, failed).0 is None,
    ensures
        numbers_drawn(seed, max, count).0 is None,
    decreases count,
{
    if failed < count {
        lemma_failure_is_final(seed, max, failed, (count - 1) as nat);
    }
}

/// Adds to `prizes` the numbers of one tier that lie in the ticket range.
fn collect_hits(
    prizes: &mut Vec<(PrizeType, u64)>,
    prize: PrizeType,
    numbers: &Vec<u64>,
    start: u64,
    end: u64,
)
    ensures
        final(prizes)@ == old(prizes)@ + hits(prize, numbers@, start, end, numbers.len() as int),
{
    let mut i: usize = 0;
    assert(prizes@ =~= old(prizes)@ + hits(prize, numbers@, start, end, 0));
    while i < numbers.len()
        invariant
            i <= numbers.len(),
            prizes@ == old(prizes)@ + hits(prize, numbers@, start, end, i as int),
        decreases numbers.len() - i,
    {
        let ghost before = hits(prize, numbers@, start, end, i as int);
        let number: u64 = numbers[i];
        if number >= start && number <= end {
            prizes.push((prize, number));
            assert(prizes@ =~= old(prizes)@ + before.push((prize, number)));
        }
        i += 1;
    }
}

/// The prizes that a user wins with the tickets from `user_tickets.0` to
/// `user_tickets.1`: every winning number in that range with its tier, in the
/// order first, second, third, lucky.
pub fn check_winner(user_tickets: (u64, u64), winning_numbers: &WinningNumbers) -> (prizes: Vec<
    (PrizeType, u64),
>)
    ensures
        prizes@ == hits(
            PrizeType::First,
            seq![winning_numbers.first_prize],
            user_tickets.0,
            user_tickets.1,
            1,
        ) + hits(
            PrizeType::Second,
            winning_numbers.second_prizes@,
            user_tickets.0,
            user_tickets.1,
            winning_numbers.second_prizes.len() as int,
        ) + hits(
            PrizeType::Third,
            winning_numbers.third_prizes@,
            user_tickets.0,
            user_tickets.1,
            winning_numbers.third_prizes.len() as int,
        ) + hits(
            PrizeType::Lucky,
            winning_numbers.lucky_prizes@,
            user_tickets.0,
            user_tickets.1,
            winning_numbers.lucky_prizes.len() as int,
        ),
{
    let start: u64 = user_tickets.0;
    let end: u64 = user_tickets.1;
    let mut prizes: Vec<(PrizeType, u64)> = Vec::new();
    let ghost first = hits(PrizeType::First, seq![winning_numbers.first_prize], start, end, 1);
    assert(hits(PrizeType::First, seq![winning_numbers.first_prize], start, end, 0) =~= Seq::empty());
    if winning_numbers.first_prize >= start && winning_numbers.first_prize <= end {
        prizes.push((PrizeType::First, winning_numbers.first_prize));
    }
    assert(prizes@ =~= first);
    collect_hits(&mut prizes, PrizeType::Second, &winning_numbers.second_prizes, start, end);
    collect_hits(&mut prizes, PrizeType::Third, &winning_numbers.third_prizes, start, end);
    collect_hits(&mut prizes, PrizeType::Lucky, &winning_numbers.lucky_prizes, start, end);
    prizes
}

/// A user's part of the universal prize: 20% of the pool, divided by the
/// tickets that share it, times the user's tickets; nothing where no ticket
/// shares it.
pub fn calculate_universal_prize(total_pool: u64, user_tickets: u64, total_universal_tickets: u64) -> (prize: u64)
    requires
        total_universal_tickets > 0 ==> total_pool * 2000 <= u64::MAX,
        total_universal_tickets > 0 ==> (total_pool * 2000 / 10_000) * user_tickets <= u64::MAX,
    ensures
        total_universal_tickets == 0 ==> prize == 0,
        total_universal_tickets > 0 ==> prize == (total_pool * 2000 / 10_000) * user_tickets
            / (total_universal_tickets as int),
{
    if total_universal_tickets == 0 {
        return 0;
    }
    let universal_pool: u64 = total_pool * 2000 / 10_000;
    (universal_pool * user_tickets) / total_universal_tickets
}

/// What one winner of a tier receives: the tier's share of the pool divided
/// among its winners. The universal prize depends on the tickets and is not
/// computed here.
pub fn calculate_prize_amount(total_pool: u64, prize_type: PrizeType) -> (amount: u64)
    requires
        total_pool * tier_rate(prize_type) <= u64::MAX,
    ensures
        amount == total_pool * tier_rate(prize_type) / 10_000 / tier_winners(prize_type),
{
    match prize_type {
        PrizeType::First => total_pool * 3000 / 10_000,
        PrizeType::Second => total_pool * 2000 / 10_000 / 2,
        PrizeType::Third => total_pool * 1500 / 10_000 / 3,
        PrizeType::Lucky => total_pool * 1000 / 10_000 / 5,
        PrizeType::Universal => 0,
    }
}

} // verus!
