use vstd::prelude::*;

verus! {

/// The first eight bytes of a seed, read as a little-endian integer.
pub open spec fn seed_word(seed: Seq<u8>) -> int {
    seed[0] as int + seed[1] as int * 0x100 + seed[2] as int * 0x1_0000 + seed[3] as int
        * 0x100_0000 + seed[4] as int * 0x1_0000_0000 + seed[5] as int * 0x100_0000_0000
        + seed[6] as int * 0x1_0000_0000_0000 + seed[7] as int * 0x100_0000_0000_0000
}

/// One step of the linear-congruential generator: multiply, then add, each
/// modulo 2^64.
#[verifier::opaque]
pub open spec fn lcg_next(rng: int) -> int {
    ((rng * 6_364_136_223_846_793_005) % 0x1_0000_0000_0000_0000 + 1_442_695_040_888_963_407)
        % 0x1_0000_0000_0000_0000
}

/// The position that step `i` exchanges with position `i`, from the generator's
/// output after that step: `i + (output >> 33) % (total - i)`.
pub open spec fn pick_offset(rng: int, i: int, total: int) -> int {
    i + (rng / 0x2_0000_0000) % (total - i)
}

/// `s` with the entries at `i` and `j` exchanged.
pub open spec fn swapped(s: Seq<usize>, i: int, j: int) -> Seq<usize> {
    s.update(i, s[j]).update(j, s[i])
}

/// The participant slots after `steps` steps of the partial shuffle.
pub open spec fn shuffled(word: int, total: nat, steps: nat) -> Seq<usize>
    decreases steps,
{
    if steps == 0 {
        Seq::new(total, |k: int| k as usize)
    } else {
        let i = (steps - 1) as nat;
        swapped(
            shuffled(word, total, i),
            i as int,
            pick_offset(generator(word, steps), i as int, total as int),
        )
    }
}

/// The generator's state after `steps` steps.
pub open spec fn generator(word: int, steps: nat) -> int
    decreases steps,
{
    if steps == 0 {
        word
    } else {
        lcg_next(generator(word, (steps - 1) as nat))
    }
}

/// The eleven winner slots for a seed and a participant count, in the order
/// first, second (two), third (three), lucky (five).
pub open spec fn select_winners(seed: Seq<u8>, total: nat) -> Seq<usize> {
    shuffled(seed_word(seed), total, 11).subrange(0, 11)
}

/// Every entry is a slot below `total`, and no slot occurs twice.
pub open spec fn distinct_slots(s: Seq<usize>, total: nat) -> bool {
    &&& forall|k: int| 0 <= k < s.len() ==> (#[trigger] s[k]) < total
    &&& forall|a: int, b: int| 0 <= a < b < s.len() ==> #[trigger] s[a] != #[trigger] s[b]
}

/// The partial shuffle only ever exchanges entries: after any number of steps
/// up to `total` it still holds each slot below `total` exactly once.
pub proof fn lemma_shuffled_is_permutation(word: int, total: nat, steps: nat)
    requires
        steps <= total,
        total <= usize::MAX,
    ensures
        shuffled(word, total, steps).len() == total,
        distinct_slots(shuffled(word, total, steps), total),
    decreases steps,
{
    if steps > 0 {
        let i = (steps - 1) as nat;
        lemma_shuffled_is_permutation(word, total, i);
        let prev = shuffled(word, total, i);
        let j = pick_offset(generator(word, steps), i as int, total as int);
        lemma_pick_offset_in_range(generator(word, steps), i as int, total as int);
        let next = swapped(prev, i as int, j);
        assert(next.len() == total);
        assert forall|k: int| 0 <= k < next.len() implies (#[trigger] next[k]) < total by {
            assert(next[k] == prev[k] || next[k] == prev[i as int] || next[k] == prev[j]);
        }
        assert forall|a: int, b: int| 0 <= a < b < next.len() implies #[trigger] next[a]
            != #[trigger] next[b] by {
            let pa = if a == i { j } else if a == j { i as int } else { a };
            let pb = if b == i { j } else if b == j { i as int } else { b };
            assert(next[a] == prev[pa]);
            assert(next[b] == prev[pb]);
            assert(pa != pb);
            if pa < pb {
                assert(prev[pa] != prev[pb]);
            } else {
                assert(prev[pb] != prev[pa]);
            }
        }
    }
}

/// The exchanged position lies between `i` and the last slot.
pub proof fn lemma_pick_offset_in_range(rng: int, i: int, total: int)
    requires
        0 <= i < total,
    ensures
        i <= pick_offset(rng, i, total) < total,
{
    let m: int = total - i;
    let q: int = rng / 0x2_0000_0000;
    assert(0 <= q % m < m) by (nonlinear_arith)
        requires
            m > 0,
    ;
}

/// The winners of a draw are eleven different participant slots.
pub proof fn lemma_select_winners_distinct(seed: Seq<u8>, total: nat)
    requires
        11 <= total <= usize::MAX,
    ensures
        select_winners(seed, total).len() == 11,
        distinct_slots(select_winners(seed, total), total),
{
    lemma_shuffled_is_permutation(seed_word(seed), total, 11);
    let full = shuffled(seed_word(seed), total, 11);
    let w = select_winners(seed, total);
    assert forall|k: int| 0 <= k < w.len() implies (#[trigger] w[k]) < total by {
        assert(w[k] == full[k]);
    }
    assert forall|a: int, b: int| 0 <= a < b < w.len() implies #[trigger] w[a] != #[trigger] w[b] by {
        assert(w[a] == full[a]);
        assert(w[b] == full[b]);
    }
}

/// A winner slot is settled by its own step: later steps exchange later
/// positions only.
pub proof fn lemma_winner_is_settled(word: int, total: nat, k: nat, steps: nat)
    requires
        k < steps <= total,
        total <= usize::MAX,
    ensures
        shuffled(word, total, steps)[k as int] == shuffled(word, total, k + 1)[k as int],
    decreases steps,
{
    if steps > k + 1 {
        let i = (steps - 1) as nat;
        lemma_winner_is_settled(word, total, k, i);
        lemma_shuffled_is_permutation(word, total, i);
        lemma_pick_offset_in_range(generator(word, steps), i as int, total as int);
    }
}

/// The first step puts into position zero the slot that it picks.
proof fn lemma_first_step(word: int, total: nat)
    requires
        11 <= total <= usize::MAX,
    ensures
        shuffled(word, total, 1)[0] == pick_offset(generator(word, 1), 0, total as int),
{
    let g = generator(word, 1);
    lemma_pick_offset_in_range(g, 0, total as int);
    let j = pick_offset(g, 0, total as int);
    let start = shuffled(word, total, 0);
    assert(start.len() == total);
    assert(start[j] == j as usize);
    assert(shuffled(word, total, 1) == swapped(start, 0, j));
}

/// The first winner is the slot that the generator's first output names:
/// `(output >> 33) % total`.
pub proof fn lemma_first_winner(seed: Seq<u8>, total: nat)
    requires
        11 <= total <= usize::MAX,
    ensures
        select_winners(seed, total).len() == 11,
        select_winners(seed, total)[0] == pick_offset(
            lcg_next(seed_word(seed)),
            0,
            total as int,
        ),
{
    let word = seed_word(seed);
    lemma_shuffled_is_permutation(word, total, 11);
    lemma_winner_is_settled(word, total, 0, 11);
    lemma_first_step(word, total);
    assert(generator(word, 1) == lcg_next(generator(word, 0)));
    assert(select_winners(seed, total).len() == 11);
    assert(select_winners(seed, total)[0] == shuffled(word, total, 11)[0]);
}

/// Selection is a function of the first eight bytes of the seed and of the
/// participant count: two seeds that agree there select the same winners for
/// the same count, whatever their other bytes hold.
pub proof fn lemma_selection_is_deterministic(seed_a: Seq<u8>, seed_b: Seq<u8>, total: nat)
    requires
        seed_a.len() == 32,
        seed_b.len() == 32,
        forall|k: int| 0 <= k < 8 ==> seed_a[k] == seed_b[k],
    ensures
        select_winners(seed_a, total) == select_winners(seed_b, total),
{
    assert(seed_word(seed_a) == seed_word(seed_b));
}

/// Reads the first eight bytes of the seed as a little-endian integer.
pub fn read_seed_word(seed: &[u8; 32]) -> (word: u64)
    ensures
        word == seed_word(seed@),
{
    let b0: u64 = seed[0] as u64;
    let b1: u64 = seed[1] as u64;
    let b2: u64 = seed[2] as u64;
    let b3: u64 = seed[3] as u64;
    let b4: u64 = seed[4] as u64;
    let b5: u64 = seed[5] as u64;
    let b6: u64 = seed[6] as u64;
    let b7: u64 = seed[7] as u64;
    b0 + b1 * 0x100 + b2 * 0x1_0000 + b3 * 0x100_0000 + b4 * 0x1_0000_0000 + b5 * 0x100_0000_0000
        + b6 * 0x1_0000_0000_0000 + b7 * 0x100_0000_0000_0000
}

/// Advances the generator by one step.
fn lcg_step(rng: u64) -> (next: u64)
    ensures
        next == lcg_next(rng as int),
{
    reveal(lcg_next);
    let product: u64 = rng.wrapping_mul(6_364_136_223_846_793_005u64);
    assert(product == (rng as int * 6_364_136_223_846_793_005) % 0x1_0000_0000_0000_0000);
    let next: u64 = product.wrapping_add(1_442_695_040_888_963_407u64);
    assert(next == (product as int + 1_442_695_040_888_963_407) % 0x1_0000_0000_0000_0000);
    next
}

/// The position that step `i` exchanges with position `i`.
fn pick_position(rng: u64, i: usize, total: usize) -> (j: usize)
    requires
        i < total,
    ensures
        j == pick_offset(rng as int, i as int, total as int),
        i <= j < total,
{
    let high: u64 = rng >> 33;
    assert(high == rng / 0x2_0000_0000u64 && high < 0x8000_0000u64) by (bit_vector)
        requires
            high == rng >> 33,
    ;
    let span: usize = total - i;
    let offset: usize = (high as usize) % span;
    proof {
        lemma_pick_offset_in_range(rng as int, i as int, total as int);
    }
    i + offset
}

/// Picks the eleven winner slots among `total` participants by a partial
/// Fisher-Yates shuffle driven by a linear-congruential generator that is
/// seeded from the first eight bytes of `seed`. The result depends on the
/// arguments alone, so a draw can be recomputed from its public seed.
pub fn pick_winner_indices(seed: [u8; 32], total: usize) -> (winners: [usize; 11])
    requires
        total >= 11,
    ensures
        winners@ == select_winners(seed@, total as nat),
        distinct_slots(winners@, total as nat),
{
    let mut pool: Vec<usize> = Vec::with_capacity(total);
    let mut k: usize = 0;
    while k < total
        invariant
            k <= total,
            pool.len() == k,
            forall|n: int| 0 <= n < k ==> pool[n] == n as usize,
        decreases total - k,
    {
        pool.push(k);
        k += 1;
    }
    let ghost word: int = seed_word(seed@);
    assert(pool@ =~= shuffled(word, total as nat, 0));
    let mut rng: u64 = read_seed_word(&seed);
    let mut i: usize = 0;
    while i < 11
        invariant
            i <= 11,
            total >= 11,
            word == seed_word(seed@),
            rng == generator(word, i as nat),
            pool@ == shuffled(word, total as nat, i as nat),
            pool.len() == total,
        decreases 11 - i,
    {
        rng = lcg_step(rng);
        assert(rng == generator(word, (i + 1) as nat));
        let j: usize = pick_position(rng, i, total);
        let at_i: usize = pool[i];
        let at_j: usize = pool[j];
        pool.set(i, at_j);
        pool.set(j, at_i);
        assert(pool@ =~= shuffled(word, total as nat, (i + 1) as nat));
        i += 1;
    }
    let mut winners: [usize; 11] = [0usize; 11];
    let mut n: usize = 0;
    while n < 11
        invariant
            n <= 11,
            pool.len() == total,
            total >= 11,
            forall|m: int| 0 <= m < n ==> winners[m] == pool[m],
        decreases 11 - n,
    {
        winners[n] = pool[n];
        n += 1;
    }
    proof {
        assert(winners@ =~= select_winners(seed@, total as nat));
        lemma_select_winners_distinct(seed@, total as nat);
    }
    winners
}

} // verus!
