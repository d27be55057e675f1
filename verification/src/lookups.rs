use vstd::prelude::*;

use crate::{is_legal_card, CKCNumber};

verus! {

// =====================================================================
// The four lookup tables of the evaluator.
//
// The tables are pure data: together they enumerate the complete
// 7462-way ranking of five-card hands. They are rebuilt here from the
// arithmetic that defines them, so that what each entry holds is stated
// and checked rather than trusted as a wall of literals.
//
//   * `FLUSHES` and `UNIQUE_5`-style tables are indexed by the 13-bit
//     rank signature of a hand (the OR of its rank flags) and cover the
//     hands whose five ranks are all distinct.
//   * The product/value pair of tables covers every hand with a repeated
//     rank, keyed by the product of the five rank primes and searched by
//     binary search.
// =====================================================================

/// The number of distinct 13-bit rank signatures a table must cover: the
/// largest signature of five distinct ranks is the top five bits,
/// `0b1111100000000 == 7936`.
pub const POSSIBLE_COMBINATIONS: usize = 7937;

/// How many set bits a value carries.
pub open spec fn spec_popcount(x: int) -> int
    decreases x when x >= 0
{
    if x <= 0 {
        0
    } else {
        x % 2 + spec_popcount(x / 2)
    }
}

proof fn lemma_popcount_le(x: int)
    requires
        x >= 0,
    ensures
        0 <= spec_popcount(x) <= x,
    decreases x,
{
    if x > 0 {
        lemma_popcount_le(x / 2);
    }
}

/// Bounds the bit count of any value a 64-bit word can hold.
pub proof fn lemma_popcount_width64(x: int)
    requires
        0 <= x < 0x1_0000_0000_0000_0000,
    ensures
        0 <= spec_popcount(x) <= 64,
{
    proof_pow2_64();
    lemma_popcount_width(x, 64);
}

proof fn proof_pow2_64()
    ensures
        pow2_int(64) == 0x1_0000_0000_0000_0000,
{
    reveal_with_fuel(pow2_int, 65);
}

proof fn lemma_popcount_width(x: int, n: int)
    requires
        0 <= n,
        0 <= x,
        x < pow2_int(n),
    ensures
        0 <= spec_popcount(x) <= n,
    decreases n,
{
    if n == 0 {
    } else if x > 0 {
        lemma_popcount_width(x / 2, n - 1);
    }
}

/// Two to the power `n`, the bound of an `n`-bit value.
pub open spec fn pow2_int(n: int) -> int
    decreases n,
{
    if n <= 0 {
        1
    } else {
        2 * pow2_int(n - 1)
    }
}

/// Counts the set bits of a 32-bit value.
pub fn popcount32(x: u32) -> (r: u32)
    ensures
        r == spec_popcount(x as int),
{
    let mut rest: u32 = x;
    let mut count: u32 = 0;
    proof {
        lemma_popcount_le(x as int);
    }
    while rest != 0
        invariant
            count + spec_popcount(rest as int) == spec_popcount(x as int),
            spec_popcount(x as int) <= x,
        decreases rest,
    {
        proof {
            lemma_popcount_le(rest as int);
            lemma_popcount_le(rest as int / 2);
        }
        count = count + rest % 2;
        rest = rest / 2;
    }
    count
}

/// The rank signature of each straight, ordered from the best (ace high,
/// value 1) to the worst (the five-high wheel, value 10); every other
/// signature gets 0. A signature of five one-hot rank bits is a straight
/// exactly when the bits are consecutive or form the wheel pattern, in
/// which the ace sits at the top of the field while acting as the low end.
pub open spec fn spec_straight_value(q: int) -> u16 {
    if q == 0x1F00 {
        1
    } else if q == 0xF80 {
        2
    } else if q == 0x7C0 {
        3
    } else if q == 0x3E0 {
        4
    } else if q == 0x1F0 {
        5
    } else if q == 0xF8 {
        6
    } else if q == 0x7C {
        7
    } else if q == 0x3E {
        8
    } else if q == 0x1F {
        9
    } else if q == 0x100F {
        10
    } else {
        0
    }
}

/// A rank signature made of exactly five distinct ranks.
pub open spec fn is_five_rank_pattern(q: int) -> bool {
    0 <= q < 7937 && spec_popcount(q) == 5
}

/// How many five-rank signatures above `q` are neither straights nor out
/// of range. Distinct-rank hands of equal category compare exactly as
/// their signatures compare as integers, so this count is the zero-based
/// strength position of the signature within its category.
pub open spec fn spec_rank_position(q: int) -> int
    decreases 7937 - q when q <= 7936
{
    if q >= 7936 {
        0
    } else {
        spec_rank_position(q + 1) + if is_five_rank_pattern(q + 1) && spec_straight_value(q + 1)
            == 0 {
            1int
        } else {
            0int
        }
    }
}

/// What the flush table holds at signature `q`: straight flushes take
/// values 1 through 10, plain flushes fill 323 through 1599 in signature
/// order, and every signature that is not five distinct ranks holds 0.
pub open spec fn spec_flushes_entry(q: int) -> u16 {
    if !is_five_rank_pattern(q) {
        0
    } else if spec_straight_value(q) != 0 {
        spec_straight_value(q)
    } else {
        (323 + spec_rank_position(q)) as u16
    }
}

/// What the unique-ranks table holds at signature `q`: straights take
/// values 1600 through 1609, high-card hands fill 6186 through 7462 in
/// signature order, and every other signature holds 0.
pub open spec fn spec_unique_entry(q: int) -> u16 {
    if !is_five_rank_pattern(q) {
        0
    } else if spec_straight_value(q) != 0 {
        (1599 + spec_straight_value(q)) as u16
    } else {
        (6186 + spec_rank_position(q)) as u16
    }
}

proof fn lemma_rank_position_bound(q: int)
    requires
        0 <= q <= 7936,
    ensures
        0 <= spec_rank_position(q) <= 7936 - q,
    decreases 7937 - q,
{
    if q < 7936 {
        lemma_rank_position_bound(q + 1);
    }
}

/// Builds the flush table and the unique-ranks table in one descending
/// pass over all signatures: the two tables mark the same signatures and
/// differ only in the value bands they assign.
pub fn flush_and_unique_tables() -> (r: (Vec<u16>, Vec<u16>))
    ensures
        r.0@.len() == POSSIBLE_COMBINATIONS,
        r.1@.len() == POSSIBLE_COMBINATIONS,
        forall|q: int| 0 <= q < 7937 ==> r.0@[q] == spec_flushes_entry(q),
        forall|q: int| 0 <= q < 7937 ==> r.1@[q] == spec_unique_entry(q),
{
    let mut flushes: Vec<u16> = Vec::new();
    let mut unique: Vec<u16> = Vec::new();
    let mut fill: usize = 0;
    while fill < 7937
        invariant
            flushes@.len() == fill,
            unique@.len() == fill,
            fill <= 7937,
            forall|k: int| 0 <= k < fill ==> flushes@[k] == 0 && unique@[k] == 0,
        decreases 7937 - fill,
    {
        flushes.push(0);
        unique.push(0);
        fill = fill + 1;
    }

    let mut position: u16 = 0;
    let mut i: usize = 7937;
    while i > 0
        invariant
            flushes@.len() == 7937,
            unique@.len() == 7937,
            i <= 7937,
            position == spec_rank_position(i - 1),
            forall|q: int| i <= q < 7937 ==> flushes@[q] == spec_flushes_entry(q),
            forall|q: int| i <= q < 7937 ==> unique@[q] == spec_unique_entry(q),
            forall|q: int| 0 <= q < i ==> flushes@[q] == 0 && unique@[q] == 0,
        decreases i,
    {
        i = i - 1;
        proof {
            lemma_rank_position_bound(i as int);
        }
        if popcount32(i as u32) == 5 {
            let s = straight_value_of(i);
            if s != 0 {
                flushes[i] = s;
                unique[i] = 1599 + s;
            } else {
                flushes[i] = 323 + position;
                unique[i] = 6186 + position;
            }
        }
        if i > 0 {
            // the counter tracks the signatures processed so far, which
            // are exactly the ones above the next index
            if popcount32(i as u32) == 5 && straight_value_of(i) == 0 {
                position = position + 1;
            }
            proof {
                assert(spec_rank_position((i - 1) as int) == spec_rank_position(i as int) + if is_five_rank_pattern(
                    i as int,
                ) && spec_straight_value(i as int) == 0 {
                    1int
                } else {
                    0int
                });
            }
        }
    }
    (flushes, unique)
}

/// The straight value of a signature: 1 for the ace-high straight down to
/// 10 for the wheel, 0 for everything else.
fn straight_value_of(q: usize) -> (r: u16)
    ensures
        r == spec_straight_value(q as int),
{
    if q == 0x1F00 {
        1
    } else if q == 0xF80 {
        2
    } else if q == 0x7C0 {
        3
    } else if q == 0x3E0 {
        4
    } else if q == 0x1F0 {
        5
    } else if q == 0xF8 {
        6
    } else if q == 0x7C {
        7
    } else if q == 0x3E {
        8
    } else if q == 0x1F {
        9
    } else if q == 0x100F {
        10
    } else {
        0
    }
}


// =====================================================================
// The product-keyed tables for hands with a repeated rank.
//
// Each entry pairs the product of a hand's five rank primes with the
// rank value of that hand. The entries are enumerated category by
// category, from four of a kind down to one pair, each category walking
// its rank combinations from strongest to weakest so that values are
// handed out in ascending order; they are kept sorted by product so the
// evaluator can find a hand's entry by binary search.
// =====================================================================

/// The prime assigned to rank index `r` (deuce is rank 0, ace is 12).
pub open spec fn spec_nth_prime(r: int) -> u32 {
    if r == 0 {
        2
    } else if r == 1 {
        3
    } else if r == 2 {
        5
    } else if r == 3 {
        7
    } else if r == 4 {
        11
    } else if r == 5 {
        13
    } else if r == 6 {
        17
    } else if r == 7 {
        19
    } else if r == 8 {
        23
    } else if r == 9 {
        29
    } else if r == 10 {
        31
    } else if r == 11 {
        37
    } else {
        41
    }
}

fn nth_prime(r: usize) -> (p: u32)
    requires
        r <= 12,
    ensures
        p == spec_nth_prime(r as int),
        2 <= p <= 41,
{
    if r == 0 {
        2
    } else if r == 1 {
        3
    } else if r == 2 {
        5
    } else if r == 3 {
        7
    } else if r == 4 {
        11
    } else if r == 5 {
        13
    } else if r == 6 {
        17
    } else if r == 7 {
        19
    } else if r == 8 {
        23
    } else if r == 9 {
        29
    } else if r == 10 {
        31
    } else if r == 11 {
        37
    } else {
        41
    }
}

/// The `j`-th rank, counting down from the ace, among the twelve ranks
/// other than `excl`.
pub open spec fn rank_excl(excl: int, j: int) -> int {
    if 12 - j > excl {
        12 - j
    } else {
        11 - j
    }
}

/// The `j`-th rank, counting down from the ace, among the eleven ranks
/// other than the two ranks `x1 > x2`.
pub open spec fn rank_excl2(x1: int, x2: int, j: int) -> int {
    if 12 - j > x1 {
        12 - j
    } else if 11 - j > x2 {
        11 - j
    } else {
        10 - j
    }
}

/// The triangular number: how many pairs a block of positions holds.
pub open spec fn tri(n: int) -> int
    decreases n,
{
    if n <= 0 {
        0
    } else {
        n + tri(n - 1)
    }
}

proof fn lemma_tri_nonneg(n: int)
    ensures
        tri(n) >= 0,
    decreases n,
{
    if n > 0 {
        lemma_tri_nonneg(n - 1);
    }
}

/// How many position pairs `(a', b')` of a block of `w` positions follow
/// `(a, b)` in lexicographic order.
pub open spec fn rem2(w: int, a: int, b: int) -> int {
    (w - 1 - b) + tri(w - 2 - a)
}

/// How many position triples of a block of twelve positions follow the
/// triples that start at a position past `a`.
pub open spec fn t3rem(a: int) -> int
    decreases 9 - a,
{
    if a >= 9 {
        0
    } else {
        tri(9 - a) + t3rem(a + 1)
    }
}

proof fn lemma_t3rem_nonneg(a: int)
    requires
        a <= 9,
    ensures
        t3rem(a) >= 0,
    decreases 9 - a,
{
    if a < 9 {
        lemma_tri_nonneg(9 - a);
        lemma_t3rem_nonneg(a + 1);
    }
}

/// How many position triples of a block of twelve positions follow
/// `(a, b, c)` in lexicographic order.
pub open spec fn rem3(a: int, b: int, c: int) -> int {
    (11 - c) + tri(10 - b) + t3rem(a)
}

/// A four-of-a-kind entry: the quad rank `q` and the position `j` of the
/// kicker among the other ranks give the product and the value band
/// 11 through 166.
pub open spec fn quads_product(q: int, j: int) -> int {
    spec_nth_prime(q) * spec_nth_prime(q) * spec_nth_prime(q) * spec_nth_prime(q) * spec_nth_prime(
        rank_excl(q, j),
    )
}

pub open spec fn quads_value(q: int, j: int) -> int {
    11 + 12 * (12 - q) + j
}

pub open spec fn quads_entry(p: u32, v: u16) -> bool {
    exists|q: int, j: int|
        0 <= q <= 12 && 0 <= j < 12 && p == quads_product(q, j) && v == quads_value(q, j)
}

/// A full-house entry: the trips rank `t` and the position `j` of the
/// pair rank among the other ranks give the value band 167 through 322.
pub open spec fn fh_product(t: int, j: int) -> int {
    spec_nth_prime(t) * spec_nth_prime(t) * spec_nth_prime(t) * spec_nth_prime(rank_excl(t, j))
        * spec_nth_prime(rank_excl(t, j))
}

pub open spec fn fh_value(t: int, j: int) -> int {
    167 + 12 * (12 - t) + j
}

pub open spec fn fh_entry(p: u32, v: u16) -> bool {
    exists|t: int, j: int|
        0 <= t <= 12 && 0 <= j < 12 && p == fh_product(t, j) && v == fh_value(t, j)
}

/// A three-of-a-kind entry: the trips rank `t` and the positions
/// `a < b` of the two kickers among the other ranks give the value band
/// 1610 through 2467, walking kicker pairs from the strongest down.
pub open spec fn trips_product(t: int, a: int, b: int) -> int {
    spec_nth_prime(t) * spec_nth_prime(t) * spec_nth_prime(t) * spec_nth_prime(rank_excl(t, a))
        * spec_nth_prime(rank_excl(t, b))
}

pub open spec fn trips_value(t: int, a: int, b: int) -> int {
    1610 + 66 * (12 - t) + (65 - rem2(12, a, b))
}

pub open spec fn trips_entry(p: u32, v: u16) -> bool {
    exists|t: int, a: int, b: int|
        0 <= t <= 12 && 0 <= a < b < 12 && p == trips_product(t, a, b) && v == trips_value(t, a, b)
}

/// A two-pair entry: the two pair ranks, read from their positions
/// `a < b` among all thirteen ranks, and the kicker position `j` give the
/// value band 2468 through 3325.
pub open spec fn twopair_product(a: int, b: int, j: int) -> int {
    spec_nth_prime(12 - a) * spec_nth_prime(12 - a) * spec_nth_prime(12 - b) * spec_nth_prime(
        12 - b,
    ) * spec_nth_prime(rank_excl2(12 - a, 12 - b, j))
}

pub open spec fn twopair_value(a: int, b: int, j: int) -> int {
    2468 + 11 * (77 - rem2(13, a, b)) + j
}

pub open spec fn twopair_entry(p: u32, v: u16) -> bool {
    exists|a: int, b: int, j: int|
        0 <= a < b < 13 && 0 <= j < 11 && p == twopair_product(a, b, j) && v == twopair_value(
            a,
            b,
            j,
        )
}

/// A one-pair entry: the pair rank `pp` and the positions `a < b < c` of
/// the three kickers among the other ranks give the value band 3326
/// through 6185.
pub open spec fn pair_product(pp: int, a: int, b: int, c: int) -> int {
    spec_nth_prime(pp) * spec_nth_prime(pp) * spec_nth_prime(rank_excl(pp, a)) * spec_nth_prime(
        rank_excl(pp, b),
    ) * spec_nth_prime(rank_excl(pp, c))
}

pub open spec fn pair_value(pp: int, a: int, b: int, c: int) -> int {
    3326 + 220 * (12 - pp) + (219 - rem3(a, b, c))
}

pub open spec fn pair_entry(p: u32, v: u16) -> bool {
    exists|pp: int, a: int, b: int, c: int|
        0 <= pp <= 12 && 0 <= a < b < c < 12 && p == pair_product(pp, a, b, c) && v == pair_value(
            pp,
            a,
            b,
            c,
        )
}

/// What a product/value entry may hold: the prime product and canonical
/// value of one rank multiset that contains a repeat, in one of the five
/// paired categories.
pub open spec fn entry_ok(p: u32, v: u16) -> bool {
    quads_entry(p, v) || fh_entry(p, v) || trips_entry(p, v) || twopair_entry(p, v) || pair_entry(
        p,
        v,
    )
}

/// Products ascending: what binary search needs of the table.
pub open spec fn sorted_by_product(s: Seq<(u32, u16)>) -> bool {
    forall|i: int, j: int| 0 <= i < j < s.len() ==> (#[trigger] s[i]).0 <= (#[trigger] s[j]).0
}

/// Some entry of the table carries exactly this product.
pub open spec fn product_present(s: Seq<(u32, u16)>, p: int) -> bool {
    exists|i: int| 0 <= i < s.len() && (#[trigger] s[i]).0 == p
}

/// Every four-of-a-kind product has an entry.
pub open spec fn quads_covered(s: Seq<(u32, u16)>) -> bool {
    forall|q: int, j: int|
        0 <= q <= 12 && 0 <= j < 12 ==> #[trigger] product_present(s, quads_product(q, j))
}

/// Every full-house product has an entry.
pub open spec fn fh_covered(s: Seq<(u32, u16)>) -> bool {
    forall|t: int, j: int|
        0 <= t <= 12 && 0 <= j < 12 ==> #[trigger] product_present(s, fh_product(t, j))
}

/// Every three-of-a-kind product has an entry.
pub open spec fn trips_covered(s: Seq<(u32, u16)>) -> bool {
    forall|t: int, aa: int, bb: int|
        0 <= t <= 12 && 0 <= aa < bb < 12 ==> #[trigger] product_present(
            s,
            trips_product(t, aa, bb),
        )
}

/// Every two-pair product has an entry.
pub open spec fn twopair_covered(s: Seq<(u32, u16)>) -> bool {
    forall|aa: int, bb: int, jj: int|
        0 <= aa < bb < 13 && 0 <= jj < 11 ==> #[trigger] product_present(
            s,
            twopair_product(aa, bb, jj),
        )
}

/// Every one-pair product has an entry.
pub open spec fn pair_covered(s: Seq<(u32, u16)>) -> bool {
    forall|pp: int, aa: int, bb: int, cc: int|
        0 <= pp <= 12 && 0 <= aa < bb < cc < 12 ==> #[trigger] product_present(
            s,
            pair_product(pp, aa, bb, cc),
        )
}

/// The table covers the prime product of every paired rank multiset.
pub open spec fn paired_products_covered(s: Seq<(u32, u16)>) -> bool {
    quads_covered(s) && fh_covered(s) && trips_covered(s) && twopair_covered(s) && pair_covered(s)
}

/// Every canonical paired entry's product is present in a covering table.
pub proof fn lemma_entry_product_covered(s: Seq<(u32, u16)>, pu: u32, vv: u16)
    requires
        paired_products_covered(s),
        entry_ok(pu, vv),
    ensures
        product_present(s, pu as int),
{
    if quads_entry(pu, vv) {
        let (q, j) = choose|q: int, j: int|
            0 <= q <= 12 && 0 <= j < 12 && pu == quads_product(q, j) && vv == quads_value(q, j);
        assert(product_present(s, quads_product(q, j)));
    } else if fh_entry(pu, vv) {
        let (t, j) = choose|t: int, j: int|
            0 <= t <= 12 && 0 <= j < 12 && pu == fh_product(t, j) && vv == fh_value(t, j);
        assert(product_present(s, fh_product(t, j)));
    } else if trips_entry(pu, vv) {
        let (t, aa, bb) = choose|t: int, aa: int, bb: int|
            0 <= t <= 12 && 0 <= aa < bb < 12 && pu == trips_product(t, aa, bb) && vv
                == trips_value(t, aa, bb);
        assert(product_present(s, trips_product(t, aa, bb)));
    } else if twopair_entry(pu, vv) {
        let (aa, bb, jj) = choose|aa: int, bb: int, jj: int|
            0 <= aa < bb < 13 && 0 <= jj < 11 && pu == twopair_product(aa, bb, jj) && vv
                == twopair_value(aa, bb, jj);
        assert(product_present(s, twopair_product(aa, bb, jj)));
    } else {
        let (pp, aa, bb, cc) = choose|pp: int, aa: int, bb: int, cc: int|
            0 <= pp <= 12 && 0 <= aa < bb < cc < 12 && pu == pair_product(pp, aa, bb, cc) && vv
                == pair_value(pp, aa, bb, cc);
        assert(product_present(s, pair_product(pp, aa, bb, cc)));
    }
}

/// Where `key` belongs in a product-sorted table.
fn insert_pos(entries: &Vec<(u32, u16)>, key: u32) -> (i: usize)
    requires
        sorted_by_product(entries@),
    ensures
        i <= entries@.len(),
        forall|j: int| 0 <= j < i ==> (#[trigger] entries@[j]).0 <= key,
        forall|j: int| i <= j < entries@.len() ==> key <= (#[trigger] entries@[j]).0,
{
    let mut lo: usize = 0;
    let mut hi: usize = entries.len();
    while lo < hi
        invariant
            lo <= hi <= entries@.len(),
            sorted_by_product(entries@),
            forall|j: int| 0 <= j < lo ==> (#[trigger] entries@[j]).0 <= key,
            forall|j: int| hi <= j < entries@.len() ==> key <= (#[trigger] entries@[j]).0,
        decreases hi - lo,
    {
        let mid = lo + (hi - lo) / 2;
        if entries[mid].0 <= key {
            lo = mid + 1;
        } else {
            hi = mid;
        }
    }
    lo
}

/// Adds one entry while keeping the table product-sorted and every entry
/// canonical.
fn push_entry(entries: &mut Vec<(u32, u16)>, p: u32, v: u16)
    requires
        sorted_by_product(old(entries)@),
        forall|i: int|
            0 <= i < old(entries)@.len() ==> entry_ok(
                (#[trigger] old(entries)@[i]).0,
                old(entries)@[i].1,
            ),
        entry_ok(p, v),
    ensures
        final(entries)@.len() == old(entries)@.len() + 1,
        sorted_by_product(final(entries)@),
        forall|i: int|
            0 <= i < final(entries)@.len() ==> entry_ok(
                (#[trigger] final(entries)@[i]).0,
                final(entries)@[i].1,
            ),
        forall|q: int|
            product_present(old(entries)@, q) ==> #[trigger] product_present(final(entries)@, q),
        product_present(final(entries)@, p as int),
{
    let i = insert_pos(entries, p);
    entries.insert(i, (p, v));
    proof {
        assert forall|a: int, b: int| 0 <= a < b < entries@.len() implies (#[trigger] entries@[a]).0
            <= (#[trigger] entries@[b]).0 by {
            if a < i && b > i {
                assert(old(entries)@[a].0 <= old(entries)@[b - 1].0);
            }
        }
        assert forall|k: int| 0 <= k < entries@.len() implies entry_ok(
            (#[trigger] entries@[k]).0,
            entries@[k].1,
        ) by {
            if k < i {
                assert(entries@[k] == old(entries)@[k]);
            } else if k > i {
                assert(entries@[k] == old(entries)@[k - 1]);
            }
        }
        assert forall|q: int| product_present(old(entries)@, q) implies #[trigger] product_present(
            entries@,
            q,
        ) by {
            let k = choose|k: int|
                0 <= k < old(entries)@.len() && (#[trigger] old(entries)@[k]).0 == q;
            if k < i {
                assert(entries@[k] == old(entries)@[k]);
            } else {
                assert(entries@[k + 1] == old(entries)@[k]);
            }
        }
        assert(entries@[i as int].0 == p);
    }
}


/// Multiplies five rank primes; the largest possible product, five aces,
/// is 41 to the fifth power and fits comfortably in 32 bits.
fn prime_product5(x1: u32, x2: u32, x3: u32, x4: u32, x5: u32) -> (r: u32)
    requires
        2 <= x1 <= 41,
        2 <= x2 <= 41,
        2 <= x3 <= 41,
        2 <= x4 <= 41,
        2 <= x5 <= 41,
    ensures
        r == x1 * x2 * x3 * x4 * x5,
{
    proof {
        assert(x1 * x2 <= 1681) by (nonlinear_arith)
            requires x1 <= 41 && x2 <= 41 && x1 >= 0 && x2 >= 0;
    }
    let p2 = x1 * x2;
    proof {
        assert(p2 * x3 <= 68921) by (nonlinear_arith)
            requires p2 <= 1681 && x3 <= 41 && p2 >= 0 && x3 >= 0;
    }
    let p3 = p2 * x3;
    proof {
        assert(p3 * x4 <= 2825761) by (nonlinear_arith)
            requires p3 <= 68921 && x4 <= 41 && p3 >= 0 && x4 >= 0;
    }
    let p4 = p3 * x4;
    proof {
        assert(p4 * x5 <= 115856201) by (nonlinear_arith)
            requires p4 <= 2825761 && x5 <= 41 && p4 >= 0 && x5 >= 0;
    }
    p4 * x5
}

/// The position helper used by the category loops.
fn rank_at(excl: usize, j: usize) -> (k: usize)
    requires
        excl <= 12,
        j < 12,
    ensures
        k == rank_excl(excl as int, j as int),
        k <= 12,
{
    if 12 - j > excl {
        12 - j
    } else {
        11 - j
    }
}

/// Builds the two parallel paired-hand tables: the matching prime
/// products, ascending and complete (every canonical product has an
/// entry), and the rank value each product stands for. The categories are
/// enumerated from four of a kind down to one pair, each walking its rank
/// combinations from the strongest to the weakest, so values climb from
/// 11 through 6185.
pub fn products_and_values() -> (r: (Vec<u32>, Vec<u16>))
    ensures
        r.0@.len() == 4888,
        r.1@.len() == 4888,
        forall|i: int, j: int| 0 <= i < j < 4888 ==> r.0@[i] <= r.0@[j],
        forall|i: int| 0 <= i < 4888 ==> entry_ok(#[trigger] r.0@[i], r.1@[i]),
        forall|pu: u32, vv: u16|
            #[trigger] entry_ok(pu, vv) ==> exists|i: int|
                0 <= i < 4888 && (#[trigger] r.0@[i]) == pu,
{
    let entries = paired_entries();
    let mut products: Vec<u32> = Vec::new();
    let mut values: Vec<u16> = Vec::new();
    let mut i: usize = 0;
    while i < entries.len()
        invariant
            entries@.len() == 4888,
            sorted_by_product(entries@),
            paired_products_covered(entries@),
            forall|k: int|
                0 <= k < 4888 ==> entry_ok((#[trigger] entries@[k]).0, entries@[k].1),
            i <= 4888,
            products@.len() == i,
            values@.len() == i,
            forall|k: int| 0 <= k < i ==> products@[k] == (#[trigger] entries@[k]).0,
            forall|k: int| 0 <= k < i ==> values@[k] == (#[trigger] entries@[k]).1,
        decreases entries@.len() - i,
    {
        let e = entries[i];
        products.push(e.0);
        values.push(e.1);
        i = i + 1;
    }
    proof {
        assert forall|a: int, b: int| 0 <= a < b < 4888 implies products@[a] <= products@[b] by {
            assert(products@[a] == (#[trigger] entries@[a]).0);
            assert(products@[b] == (#[trigger] entries@[b]).0);
        }
        assert forall|k: int| 0 <= k < 4888 implies entry_ok(
            #[trigger] products@[k],
            values@[k],
        ) by {
            assert(products@[k] == (#[trigger] entries@[k]).0);
            assert(values@[k] == entries@[k].1);
            assert(entry_ok(entries@[k].0, entries@[k].1));
        }
        assert forall|pu: u32, vv: u16| #[trigger] entry_ok(pu, vv) implies exists|i2: int|
            0 <= i2 < 4888 && (#[trigger] products@[i2]) == pu by {
            lemma_entry_product_covered(entries@, pu, vv);
            let k = choose|k: int| 0 <= k < entries@.len() && (#[trigger] entries@[k]).0 == pu;
            assert(products@[k] == (#[trigger] entries@[k]).0);
        }
    }
    (products, values)
}

/// Enumerates every paired-rank entry, keeping the list sorted by product
/// as it grows; on top of every entry being canonical, the walk covers
/// every rank combination, so no canonical product is missing.
#[verifier::rlimit(100)]
fn paired_entries() -> (r: Vec<(u32, u16)>)
    ensures
        r@.len() == 4888,
        sorted_by_product(r@),
        forall|i: int| 0 <= i < 4888 ==> entry_ok((#[trigger] r@[i]).0, r@[i].1),
        paired_products_covered(r@),
{
    let mut entries: Vec<(u32, u16)> = Vec::new();

    // four of a kind: quad rank from the ace down, then the kicker from
    // the strongest remaining rank down
    let mut value: u16 = 11;
    let mut qi: usize = 0;
    while qi < 13
        invariant
            qi <= 13,
            entries@.len() == 12 * qi,
            value == 11 + 12 * qi,
            sorted_by_product(entries@),
            forall|i: int|
                0 <= i < entries@.len() ==> entry_ok((#[trigger] entries@[i]).0, entries@[i].1),
            forall|q2: int, j2: int|
                0 <= q2 <= 12 && 0 <= j2 < 12 && 12 - q2 < qi ==> #[trigger] product_present(
                    entries@,
                    quads_product(q2, j2),
                ),
        decreases 13 - qi,
    {
        let quad = 12 - qi;
        let pq = nth_prime(quad);
        let mut j: usize = 0;
        while j < 12
            invariant
                qi < 13,
                quad == 12 - qi,
                pq == spec_nth_prime(quad as int),
                2 <= pq <= 41,
                j <= 12,
                entries@.len() == 12 * qi + j,
                value == 11 + 12 * qi + j,
                sorted_by_product(entries@),
                forall|i: int|
                    0 <= i < entries@.len() ==> entry_ok(
                        (#[trigger] entries@[i]).0,
                        entries@[i].1,
                    ),
                forall|q2: int, j2: int|
                    0 <= q2 <= 12 && 0 <= j2 < 12 && (q2 > quad || (q2 == quad && j2 < j))
                        ==> #[trigger] product_present(entries@, quads_product(q2, j2)),
            decreases 12 - j,
        {
            let k = rank_at(quad, j);
            let pk = nth_prime(k);
            let p = prime_product5(pq, pq, pq, pq, pk);
            proof {
                assert(p == quads_product(quad as int, j as int));
                assert(value == quads_value(quad as int, j as int));
                assert(quads_entry(p, value));
            }
            push_entry(&mut entries, p, value);
            value = value + 1;
            j = j + 1;
        }
        qi = qi + 1;
    }
    proof {
        assert(quads_covered(entries@));
    }

    // full house: trips rank from the ace down, then the pair rank from
    // the strongest remaining rank down
    let mut ti: usize = 0;
    while ti < 13
        invariant
            ti <= 13,
            entries@.len() == 156 + 12 * ti,
            value == 167 + 12 * ti,
            sorted_by_product(entries@),
            forall|i: int|
                0 <= i < entries@.len() ==> entry_ok((#[trigger] entries@[i]).0, entries@[i].1),
            quads_covered(entries@),
            forall|t2: int, j2: int|
                0 <= t2 <= 12 && 0 <= j2 < 12 && 12 - t2 < ti ==> #[trigger] product_present(
                    entries@,
                    fh_product(t2, j2),
                ),
        decreases 13 - ti,
    {
        let t = 12 - ti;
        let pt = nth_prime(t);
        let mut j: usize = 0;
        while j < 12
            invariant
                ti < 13,
                t == 12 - ti,
                pt == spec_nth_prime(t as int),
                2 <= pt <= 41,
                j <= 12,
                entries@.len() == 156 + 12 * ti + j,
                value == 167 + 12 * ti + j,
                sorted_by_product(entries@),
                forall|i: int|
                    0 <= i < entries@.len() ==> entry_ok(
                        (#[trigger] entries@[i]).0,
                        entries@[i].1,
                    ),
                quads_covered(entries@),
                forall|t2: int, j2: int|
                    0 <= t2 <= 12 && 0 <= j2 < 12 && (t2 > t || (t2 == t && j2 < j))
                        ==> #[trigger] product_present(entries@, fh_product(t2, j2)),
            decreases 12 - j,
        {
            let k = rank_at(t, j);
            let pk = nth_prime(k);
            let p = prime_product5(pt, pt, pt, pk, pk);
            proof {
                assert(p == fh_product(t as int, j as int));
                assert(value == fh_value(t as int, j as int));
                assert(fh_entry(p, value));
            }
            push_entry(&mut entries, p, value);
            value = value + 1;
            j = j + 1;
        }
        ti = ti + 1;
    }
    proof {
        assert(fh_covered(entries@));
    }

    // three of a kind: trips rank from the ace down, then the 66 kicker
    // pairs in descending lexicographic order of kicker ranks; the values
    // jump past the bands the flush and unique-rank tables own
    value = 1610;
    let mut ti: usize = 0;
    while ti < 13
        invariant
            ti <= 13,
            entries@.len() == 312 + 66 * ti,
            value == 1610 + 66 * ti,
            sorted_by_product(entries@),
            forall|i: int|
                0 <= i < entries@.len() ==> entry_ok((#[trigger] entries@[i]).0, entries@[i].1),
            quads_covered(entries@),
            fh_covered(entries@),
            forall|t2: int, aa: int, bb: int|
                0 <= t2 <= 12 && 0 <= aa < bb < 12 && 12 - t2 < ti ==> #[trigger] product_present(
                    entries@,
                    trips_product(t2, aa, bb),
                ),
        decreases 13 - ti,
    {
        let t = 12 - ti;
        let pt = nth_prime(t);
        proof {
            reveal_with_fuel(tri, 13);
        }
        let mut m: usize = 0;
        let mut a: usize = 0;
        let mut b: usize = 1;
        while m < 66
            invariant
                ti < 13,
                t == 12 - ti,
                pt == spec_nth_prime(t as int),
                2 <= pt <= 41,
                m <= 66,
                entries@.len() == 312 + 66 * ti + m,
                value == 1610 + 66 * ti + m,
                m < 66 ==> a < b <= 11 && m + rem2(12, a as int, b as int) + 1 == 66,
                m == 66 ==> a == 11 && b == 12,
                sorted_by_product(entries@),
                forall|i: int|
                    0 <= i < entries@.len() ==> entry_ok(
                        (#[trigger] entries@[i]).0,
                        entries@[i].1,
                    ),
                quads_covered(entries@),
                fh_covered(entries@),
                forall|t2: int, aa: int, bb: int|
                    0 <= t2 <= 12 && 0 <= aa < bb < 12 && 12 - t2 < ti
                        ==> #[trigger] product_present(entries@, trips_product(t2, aa, bb)),
                forall|aa: int, bb: int|
                    0 <= aa < bb < 12 && (aa < a || (aa == a && bb < b))
                        ==> #[trigger] product_present(entries@, trips_product(t as int, aa, bb)),
            decreases 66 - m,
        {
            let ka = rank_at(t, a);
            let kb = rank_at(t, b);
            let p = prime_product5(pt, pt, pt, nth_prime(ka), nth_prime(kb));
            proof {
                assert(p == trips_product(t as int, a as int, b as int));
                assert(value == trips_value(t as int, a as int, b as int));
                assert(trips_entry(p, value));
            }
            push_entry(&mut entries, p, value);
            value = value + 1;
            proof {
                lemma_tri_nonneg(9 - a);
                lemma_tri_nonneg(10 - a);
            }
            if b < 11 {
                b = b + 1;
            } else {
                proof {
                    assert(tri(0) == 0);
                    if m + 1 < 66 {
                        assert(rem2(12, a as int, 11) == tri(10 - a as int));
                        assert(a < 10);
                        assert(tri(10 - a as int) == (10 - a as int) + tri(9 - a as int));
                    } else {
                        assert(rem2(12, a as int, 11) == tri(10 - a as int));
                        if a < 10 {
                            lemma_tri_nonneg(9 - a);
                            assert(tri(10 - a as int) == (10 - a as int) + tri(9 - a as int));
                        }
                        assert(a == 10);
                    }
                }
                a = a + 1;
                b = a + 1;
            }
            m = m + 1;
        }
        ti = ti + 1;
    }
    proof {
        assert(trips_covered(entries@));
    }

    // two pair: the 78 pair-rank combinations in descending lexicographic
    // order, then the kicker from the strongest remaining rank down
    value = 2468;
    proof {
        reveal_with_fuel(tri, 13);
    }
    let mut mm: usize = 0;
    let mut a2: usize = 0;
    let mut b2: usize = 1;
    while mm < 78
        invariant
            mm <= 78,
            entries@.len() == 1170 + 11 * mm,
            value == 2468 + 11 * mm,
            mm < 78 ==> a2 < b2 <= 12 && mm + rem2(13, a2 as int, b2 as int) + 1 == 78,
            mm == 78 ==> a2 == 12 && b2 == 13,
            sorted_by_product(entries@),
            forall|i: int|
                0 <= i < entries@.len() ==> entry_ok((#[trigger] entries@[i]).0, entries@[i].1),
            quads_covered(entries@),
            fh_covered(entries@),
            trips_covered(entries@),
            forall|aa: int, bb: int, jj: int|
                0 <= aa < bb < 13 && 0 <= jj < 11 && (aa < a2 || (aa == a2 && bb < b2))
                    ==> #[trigger] product_present(entries@, twopair_product(aa, bb, jj)),
        decreases 78 - mm,
    {
        let hi = 12 - a2;
        let lo = 12 - b2;
        let ph = nth_prime(hi);
        let pl = nth_prime(lo);
        let mut j: usize = 0;
        while j < 11
            invariant
                mm < 78,
                a2 < b2 <= 12,
                mm + rem2(13, a2 as int, b2 as int) + 1 == 78,
                hi == 12 - a2,
                lo == 12 - b2,
                ph == spec_nth_prime(hi as int),
                pl == spec_nth_prime(lo as int),
                2 <= ph <= 41,
                2 <= pl <= 41,
                j <= 11,
                entries@.len() == 1170 + 11 * mm + j,
                value == 2468 + 11 * mm + j,
                sorted_by_product(entries@),
                forall|i: int|
                    0 <= i < entries@.len() ==> entry_ok(
                        (#[trigger] entries@[i]).0,
                        entries@[i].1,
                    ),
                quads_covered(entries@),
                fh_covered(entries@),
                trips_covered(entries@),
                forall|aa: int, bb: int, jj: int|
                    0 <= aa < bb < 13 && 0 <= jj < 11 && (aa < a2 || (aa == a2 && bb < b2))
                        ==> #[trigger] product_present(entries@, twopair_product(aa, bb, jj)),
                forall|jj: int|
                    0 <= jj < j ==> #[trigger] product_present(
                        entries@,
                        twopair_product(a2 as int, b2 as int, jj),
                    ),
            decreases 11 - j,
        {
            let k = if 12 - j > hi {
                12 - j
            } else if 11 - j > lo {
                11 - j
            } else {
                10 - j
            };
            let pk = nth_prime(k);
            let p = prime_product5(ph, ph, pl, pl, pk);
            proof {
                assert(k == rank_excl2(hi as int, lo as int, j as int));
                assert(p == twopair_product(a2 as int, b2 as int, j as int));
                assert(value == twopair_value(a2 as int, b2 as int, j as int));
                assert(twopair_entry(p, value));
            }
            push_entry(&mut entries, p, value);
            value = value + 1;
            j = j + 1;
        }
        proof {
            lemma_tri_nonneg(10 - a2);
            lemma_tri_nonneg(11 - a2);
        }
        if b2 < 12 {
            b2 = b2 + 1;
        } else {
            proof {
                assert(tri(0) == 0);
                if mm + 1 < 78 {
                    assert(rem2(13, a2 as int, 12) == tri(11 - a2 as int));
                    assert(a2 < 11);
                    assert(tri(11 - a2 as int) == (11 - a2 as int) + tri(10 - a2 as int));
                } else {
                    assert(rem2(13, a2 as int, 12) == tri(11 - a2 as int));
                    if a2 < 11 {
                        lemma_tri_nonneg(10 - a2);
                        assert(tri(11 - a2 as int) == (11 - a2 as int) + tri(10 - a2 as int));
                    }
                    assert(a2 == 11);
                }
            }
            a2 = a2 + 1;
            b2 = a2 + 1;
        }
        mm = mm + 1;
    }
    proof {
        assert(twopair_covered(entries@));
    }

    // one pair: the pair rank from the ace down, then the 220 kicker
    // triples in descending lexicographic order of kicker ranks
    value = 3326;
    proof {
        reveal_with_fuel(tri, 13);
        reveal_with_fuel(t3rem, 11);
    }
    let mut pi: usize = 0;
    while pi < 13
        invariant
            pi <= 13,
            entries@.len() == 2028 + 220 * pi,
            value == 3326 + 220 * pi,
            sorted_by_product(entries@),
            forall|i: int|
                0 <= i < entries@.len() ==> entry_ok((#[trigger] entries@[i]).0, entries@[i].1),
            quads_covered(entries@),
            fh_covered(entries@),
            trips_covered(entries@),
            twopair_covered(entries@),
            forall|p2: int, aa: int, bb: int, cc: int|
                0 <= p2 <= 12 && 0 <= aa < bb < cc < 12 && 12 - p2 < pi
                    ==> #[trigger] product_present(entries@, pair_product(p2, aa, bb, cc)),
        decreases 13 - pi,
    {
        let pp = 12 - pi;
        let prp = nth_prime(pp);
        proof {
            reveal_with_fuel(tri, 13);
            reveal_with_fuel(t3rem, 11);
        }
        let mut m: usize = 0;
        let mut a: usize = 0;
        let mut b: usize = 1;
        let mut c: usize = 2;
        while m < 220
            invariant
                pi < 13,
                pp == 12 - pi,
                prp == spec_nth_prime(pp as int),
                2 <= prp <= 41,
                m <= 220,
                entries@.len() == 2028 + 220 * pi + m,
                value == 3326 + 220 * pi + m,
                m < 220 ==> a < b && b < c && c <= 11 && m + rem3(a as int, b as int, c as int)
                    + 1 == 220,
                m == 220 ==> a == 10 && b == 11 && c == 12,
                sorted_by_product(entries@),
                forall|i: int|
                    0 <= i < entries@.len() ==> entry_ok(
                        (#[trigger] entries@[i]).0,
                        entries@[i].1,
                    ),
                quads_covered(entries@),
                fh_covered(entries@),
                trips_covered(entries@),
                twopair_covered(entries@),
                forall|p2: int, aa: int, bb: int, cc: int|
                    0 <= p2 <= 12 && 0 <= aa < bb < cc < 12 && 12 - p2 < pi
                        ==> #[trigger] product_present(entries@, pair_product(p2, aa, bb, cc)),
                forall|aa: int, bb: int, cc: int|
                    0 <= aa < bb < cc < 12 && (aa < a || (aa == a && (bb < b || (bb == b && cc
                        < c)))) ==> #[trigger] product_present(
                        entries@,
                        pair_product(pp as int, aa, bb, cc),
                    ),
            decreases 220 - m,
        {
            let ka = rank_at(pp, a);
            let kb = rank_at(pp, b);
            let kc = rank_at(pp, c);
            let p = prime_product5(prp, prp, nth_prime(ka), nth_prime(kb), nth_prime(kc));
            proof {
                assert(p == pair_product(pp as int, a as int, b as int, c as int));
                assert(value == pair_value(pp as int, a as int, b as int, c as int));
                assert(pair_entry(p, value));
            }
            push_entry(&mut entries, p, value);
            value = value + 1;
            proof {
                lemma_tri_nonneg(8 - a);
                lemma_tri_nonneg(9 - a);
                lemma_tri_nonneg(9 - b);
                lemma_tri_nonneg(10 - b);
                lemma_t3rem_nonneg(a as int);
                if a < 9 {
                    lemma_t3rem_nonneg(a as int + 1);
                }
            }
            if c < 11 {
                proof {
                    if m + 1 == 220 {
                        lemma_tri_nonneg(10 - b as int);
                        lemma_t3rem_nonneg(a as int);
                    }
                }
                c = c + 1;
            } else if b < 10 {
                proof {
                    assert(tri(0) == 0);
                    if m + 1 < 220 {
                        assert(rem3(a as int, b as int, 11) == tri(10 - b as int) + t3rem(
                            a as int,
                        ));
                        assert(tri(10 - b as int) == (10 - b as int) + tri(9 - b as int));
                    } else {
                        assert(rem3(a as int, b as int, 11) == tri(10 - b as int) + t3rem(
                            a as int,
                        ));
                        lemma_tri_nonneg(9 - b as int);
                        lemma_t3rem_nonneg(a as int);
                        assert(tri(10 - b as int) == (10 - b as int) + tri(9 - b as int));
                    }
                }
                b = b + 1;
                c = b + 1;
            } else {
                proof {
                    assert(tri(0) == 0);
                    assert(rem3(a as int, 10, 11) == t3rem(a as int));
                    if m + 1 < 220 {
                        assert(t3rem(a as int) == tri(9 - a as int) + t3rem(a as int + 1));
                        assert(a < 9);
                        assert(tri(9 - a as int) == (9 - a as int) + tri(8 - a as int));
                    } else {
                        if a < 9 {
                            assert(t3rem(a as int) == tri(9 - a as int) + t3rem(a as int + 1));
                            lemma_tri_nonneg(8 - a as int);
                            lemma_t3rem_nonneg(a as int + 1);
                            assert(tri(9 - a as int) == (9 - a as int) + tri(8 - a as int));
                        }
                        assert(a == 9);
                    }
                }
                a = a + 1;
                b = a + 1;
                c = b + 1;
            }
            m = m + 1;
        }
        pi = pi + 1;
    }
    proof {
        assert(pair_covered(entries@));
    }

    entries
}


proof fn lemma_tri_mono(n: int, m: int)
    requires
        n <= m,
    ensures
        tri(n) <= tri(m),
    decreases m,
{
    if n < m && m > 0 {
        lemma_tri_mono(n, m - 1);
        lemma_tri_nonneg(m - 1);
        lemma_tri_nonneg(n);
    }
}

proof fn lemma_t3rem_mono(a: int)
    requires
        0 <= a,
    ensures
        t3rem(a) <= t3rem(0),
    decreases a,
{
    if a > 0 {
        lemma_t3rem_mono(a - 1);
        if a - 1 < 9 {
            lemma_tri_nonneg(9 - (a - 1));
        }
    }
}

/// Law (one leg of the range property): every paired-hand entry carries a
/// value inside the paired bands, 11 for the best four of a kind through
/// 6185 for the worst pair, so whatever the paired-rank step returns stays
/// inside those bands.
pub proof fn lemma_entry_value_bands(p: u32, v: u16)
    requires
        entry_ok(p, v),
    ensures
        11 <= v <= 6185,
{
    reveal_with_fuel(tri, 13);
    reveal_with_fuel(t3rem, 11);
    if quads_entry(p, v) {
        let (q, j) = choose|q: int, j: int|
            0 <= q <= 12 && 0 <= j < 12 && p == quads_product(q, j) && v == quads_value(q, j);
    } else if fh_entry(p, v) {
        let (t, j) = choose|t: int, j: int|
            0 <= t <= 12 && 0 <= j < 12 && p == fh_product(t, j) && v == fh_value(t, j);
    } else if trips_entry(p, v) {
        let (t, a, b) = choose|t: int, a: int, b: int|
            0 <= t <= 12 && 0 <= a < b < 12 && p == trips_product(t, a, b) && v == trips_value(
                t,
                a,
                b,
            );
        lemma_tri_nonneg(10 - a);
        lemma_tri_mono(10 - a, 10);
    } else if twopair_entry(p, v) {
        let (a, b, j) = choose|a: int, b: int, j: int|
            0 <= a < b < 13 && 0 <= j < 11 && p == twopair_product(a, b, j) && v == twopair_value(
                a,
                b,
                j,
            );
        lemma_tri_nonneg(11 - a);
        lemma_tri_mono(11 - a, 11);
    } else {
        let (pp, a, b, c) = choose|pp: int, a: int, b: int, c: int|
            0 <= pp <= 12 && 0 <= a < b < c < 12 && p == pair_product(pp, a, b, c) && v
                == pair_value(pp, a, b, c);
        lemma_tri_nonneg(10 - b);
        lemma_tri_mono(10 - b, 10);
        lemma_t3rem_nonneg(a);
        lemma_t3rem_mono(a);
    }
}


// =====================================================================
// Counting the five-rank signatures: there are exactly 1287 thirteen-bit
// values with five set bits, ten of which are straights, so a signature's
// position within its category never passes 1276. This bounds every
// table value from above.
// =====================================================================

/// How many values in `[0, hi)` carry exactly `k` set bits.
pub open spec fn cntk(hi: int, k: int) -> int
    decreases hi,
{
    if hi <= 0 {
        0
    } else {
        cntk(hi - 1, k) + if spec_popcount(hi - 1) == k {
            1int
        } else {
            0int
        }
    }
}

proof fn lemma_cntk_neg(hi: int, k: int)
    requires
        k < 0,
    ensures
        cntk(hi, k) == 0,
    decreases hi,
{
    if hi > 0 {
        lemma_popcount_le(hi - 1);
        lemma_cntk_neg(hi - 1, k);
    }
}

proof fn lemma_cntk_mono(lo: int, hi: int, k: int)
    requires
        lo <= hi,
    ensures
        cntk(lo, k) <= cntk(hi, k),
    decreases hi,
{
    if lo < hi && hi > 0 {
        lemma_cntk_mono(lo, hi - 1, k);
    }
}

/// Adding a power of two on top of a smaller value sets exactly one more
/// bit.
proof fn lemma_pc_pow_add(m: int, y: int)
    requires
        0 <= m,
        0 <= y < pow2_int(m),
    ensures
        spec_popcount(pow2_int(m) + y) == 1 + spec_popcount(y),
    decreases m,
{
    if m == 0 {
    } else {
        assert(pow2_int(m) == 2 * pow2_int(m - 1));
        assert((pow2_int(m) + y) / 2 == pow2_int(m - 1) + y / 2);
        assert((pow2_int(m) + y) % 2 == y % 2);
        lemma_pow2_pos(m - 1);
        lemma_pc_pow_add(m - 1, y / 2);
    }
}

proof fn lemma_pow2_pos(m: int)
    ensures
        pow2_int(m) >= 1,
    decreases m,
{
    if m > 0 {
        lemma_pow2_pos(m - 1);
    }
}

/// The second half of a power-of-two range repeats the first half with
/// one extra set bit.
proof fn lemma_cnt_window(m: int, t: int, k: int)
    requires
        0 <= m,
        0 <= t <= pow2_int(m),
    ensures
        cntk(pow2_int(m) + t, k) == cntk(pow2_int(m), k) + cntk(t, k - 1),
    decreases t,
{
    lemma_pow2_pos(m);
    if t > 0 {
        lemma_cnt_window(m, t - 1, k);
        lemma_pc_pow_add(m, t - 1);
    }
}

proof fn lemma_cnt_double(m: int, k: int)
    requires
        0 <= m,
    ensures
        cntk(pow2_int(m + 1), k) == cntk(pow2_int(m), k) + cntk(pow2_int(m), k - 1),
    decreases m,
{
    lemma_pow2_pos(m);
    assert(pow2_int(m + 1) == pow2_int(m) + pow2_int(m));
    lemma_cnt_window(m, pow2_int(m), k);
}

/// There are exactly 1287 thirteen-bit values with five set bits.
proof fn lemma_five_bit_count()
    ensures
        cntk(8192, 5) == 1287,
{
    reveal_with_fuel(spec_popcount, 3);
    reveal_with_fuel(cntk, 3);
    assert(cntk(pow2_int(0), 0) == 1);
    assert(cntk(pow2_int(0), 1) == 0);
    assert(cntk(pow2_int(0), 2) == 0);
    assert(cntk(pow2_int(0), 3) == 0);
    assert(cntk(pow2_int(0), 4) == 0);
    assert(cntk(pow2_int(0), 5) == 0);
    lemma_cnt_double(0, 0);
    lemma_cntk_neg(pow2_int(0), -1);
    assert(cntk(pow2_int(1), 0) == 1);
    lemma_cnt_double(0, 1);
    assert(cntk(pow2_int(1), 1) == 1);
    lemma_cnt_double(0, 2);
    assert(cntk(pow2_int(1), 2) == 0);
    lemma_cnt_double(0, 3);
    assert(cntk(pow2_int(1), 3) == 0);
    lemma_cnt_double(0, 4);
    assert(cntk(pow2_int(1), 4) == 0);
    lemma_cnt_double(0, 5);
    assert(cntk(pow2_int(1), 5) == 0);
    lemma_cnt_double(1, 0);
    lemma_cntk_neg(pow2_int(1), -1);
    assert(cntk(pow2_int(2), 0) == 1);
    lemma_cnt_double(1, 1);
    assert(cntk(pow2_int(2), 1) == 2);
    lemma_cnt_double(1, 2);
    assert(cntk(pow2_int(2), 2) == 1);
    lemma_cnt_double(1, 3);
    assert(cntk(pow2_int(2), 3) == 0);
    lemma_cnt_double(1, 4);
    assert(cntk(pow2_int(2), 4) == 0);
    lemma_cnt_double(1, 5);
    assert(cntk(pow2_int(2), 5) == 0);
    lemma_cnt_double(2, 0);
    lemma_cntk_neg(pow2_int(2), -1);
    assert(cntk(pow2_int(3), 0) == 1);
    lemma_cnt_double(2, 1);
    assert(cntk(pow2_int(3), 1) == 3);
    lemma_cnt_double(2, 2);
    assert(cntk(pow2_int(3), 2) == 3);
    lemma_cnt_double(2, 3);
    assert(cntk(pow2_int(3), 3) == 1);
    lemma_cnt_double(2, 4);
    assert(cntk(pow2_int(3), 4) == 0);
    lemma_cnt_double(2, 5);
    assert(cntk(pow2_int(3), 5) == 0);
    lemma_cnt_double(3, 0);
    lemma_cntk_neg(pow2_int(3), -1);
    assert(cntk(pow2_int(4), 0) == 1);
    lemma_cnt_double(3, 1);
    assert(cntk(pow2_int(4), 1) == 4);
    lemma_cnt_double(3, 2);
    assert(cntk(pow2_int(4), 2) == 6);
    lemma_cnt_double(3, 3);
    assert(cntk(pow2_int(4), 3) == 4);
    lemma_cnt_double(3, 4);
    assert(cntk(pow2_int(4), 4) == 1);
    lemma_cnt_double(3, 5);
    assert(cntk(pow2_int(4), 5) == 0);
    lemma_cnt_double(4, 0);
    lemma_cntk_neg(pow2_int(4), -1);
    assert(cntk(pow2_int(5), 0) == 1);
    lemma_cnt_double(4, 1);
    assert(cntk(pow2_int(5), 1) == 5);
    lemma_cnt_double(4, 2);
    assert(cntk(pow2_int(5), 2) == 10);
    lemma_cnt_double(4, 3);
    assert(cntk(pow2_int(5), 3) == 10);
    lemma_cnt_double(4, 4);
    assert(cntk(pow2_int(5), 4) == 5);
    lemma_cnt_double(4, 5);
    assert(cntk(pow2_int(5), 5) == 1);
    lemma_cnt_double(5, 0);
    lemma_cntk_neg(pow2_int(5), -1);
    assert(cntk(pow2_int(6), 0) == 1);
    lemma_cnt_double(5, 1);
    assert(cntk(pow2_int(6), 1) == 6);
    lemma_cnt_double(5, 2);
    assert(cntk(pow2_int(6), 2) == 15);
    lemma_cnt_double(5, 3);
    assert(cntk(pow2_int(6), 3) == 20);
    lemma_cnt_double(5, 4);
    assert(cntk(pow2_int(6), 4) == 15);
    lemma_cnt_double(5, 5);
    assert(cntk(pow2_int(6), 5) == 6);
    lemma_cnt_double(6, 0);
    lemma_cntk_neg(pow2_int(6), -1);
    assert(cntk(pow2_int(7), 0) == 1);
    lemma_cnt_double(6, 1);
    assert(cntk(pow2_int(7), 1) == 7);
    lemma_cnt_double(6, 2);
    assert(cntk(pow2_int(7), 2) == 21);
    lemma_cnt_double(6, 3);
    assert(cntk(pow2_int(7), 3) == 35);
    lemma_cnt_double(6, 4);
    assert(cntk(pow2_int(7), 4) == 35);
    lemma_cnt_double(6, 5);
    assert(cntk(pow2_int(7), 5) == 21);
    lemma_cnt_double(7, 0);
    lemma_cntk_neg(pow2_int(7), -1);
    assert(cntk(pow2_int(8), 0) == 1);
    lemma_cnt_double(7, 1);
    assert(cntk(pow2_int(8), 1) == 8);
    lemma_cnt_double(7, 2);
    assert(cntk(pow2_int(8), 2) == 28);
    lemma_cnt_double(7, 3);
    assert(cntk(pow2_int(8), 3) == 56);
    lemma_cnt_double(7, 4);
    assert(cntk(pow2_int(8), 4) == 70);
    lemma_cnt_double(7, 5);
    assert(cntk(pow2_int(8), 5) == 56);
    lemma_cnt_double(8, 0);
    lemma_cntk_neg(pow2_int(8), -1);
    assert(cntk(pow2_int(9), 0) == 1);
    lemma_cnt_double(8, 1);
    assert(cntk(pow2_int(9), 1) == 9);
    lemma_cnt_double(8, 2);
    assert(cntk(pow2_int(9), 2) == 36);
    lemma_cnt_double(8, 3);
    assert(cntk(pow2_int(9), 3) == 84);
    lemma_cnt_double(8, 4);
    assert(cntk(pow2_int(9), 4) == 126);
    lemma_cnt_double(8, 5);
    assert(cntk(pow2_int(9), 5) == 126);
    lemma_cnt_double(9, 0);
    lemma_cntk_neg(pow2_int(9), -1);
    assert(cntk(pow2_int(10), 0) == 1);
    lemma_cnt_double(9, 1);
    assert(cntk(pow2_int(10), 1) == 10);
    lemma_cnt_double(9, 2);
    assert(cntk(pow2_int(10), 2) == 45);
    lemma_cnt_double(9, 3);
    assert(cntk(pow2_int(10), 3) == 120);
    lemma_cnt_double(9, 4);
    assert(cntk(pow2_int(10), 4) == 210);
    lemma_cnt_double(9, 5);
    assert(cntk(pow2_int(10), 5) == 252);
    lemma_cnt_double(10, 0);
    lemma_cntk_neg(pow2_int(10), -1);
    assert(cntk(pow2_int(11), 0) == 1);
    lemma_cnt_double(10, 1);
    assert(cntk(pow2_int(11), 1) == 11);
    lemma_cnt_double(10, 2);
    assert(cntk(pow2_int(11), 2) == 55);
    lemma_cnt_double(10, 3);
    assert(cntk(pow2_int(11), 3) == 165);
    lemma_cnt_double(10, 4);
    assert(cntk(pow2_int(11), 4) == 330);
    lemma_cnt_double(10, 5);
    assert(cntk(pow2_int(11), 5) == 462);
    lemma_cnt_double(11, 0);
    lemma_cntk_neg(pow2_int(11), -1);
    assert(cntk(pow2_int(12), 0) == 1);
    lemma_cnt_double(11, 1);
    assert(cntk(pow2_int(12), 1) == 12);
    lemma_cnt_double(11, 2);
    assert(cntk(pow2_int(12), 2) == 66);
    lemma_cnt_double(11, 3);
    assert(cntk(pow2_int(12), 3) == 220);
    lemma_cnt_double(11, 4);
    assert(cntk(pow2_int(12), 4) == 495);
    lemma_cnt_double(11, 5);
    assert(cntk(pow2_int(12), 5) == 792);
    lemma_cnt_double(12, 0);
    lemma_cntk_neg(pow2_int(12), -1);
    assert(cntk(pow2_int(13), 0) == 1);
    lemma_cnt_double(12, 1);
    assert(cntk(pow2_int(13), 1) == 13);
    lemma_cnt_double(12, 2);
    assert(cntk(pow2_int(13), 2) == 78);
    lemma_cnt_double(12, 3);
    assert(cntk(pow2_int(13), 3) == 286);
    lemma_cnt_double(12, 4);
    assert(cntk(pow2_int(13), 4) == 715);
    lemma_cnt_double(12, 5);
    assert(cntk(pow2_int(13), 5) == 1287);
    reveal_with_fuel(pow2_int, 15);
    assert(pow2_int(13) == 8192);
}

/// Whether a value is a five-rank signature that is not a straight.
pub open spec fn ns_ind(x: int) -> int {
    if is_five_rank_pattern(x) && spec_straight_value(x) == 0 {
        1int
    } else {
        0int
    }
}

/// How many non-straight five-rank signatures sit in `[0, hi)`.
pub open spec fn nscnt(hi: int) -> int
    decreases hi,
{
    if hi <= 0 {
        0
    } else {
        nscnt(hi - 1) + ns_ind(hi - 1)
    }
}

/// Whether a value is a five-rank signature that is a straight.
pub open spec fn s_ind(x: int) -> int {
    if is_five_rank_pattern(x) && spec_straight_value(x) != 0 {
        1int
    } else {
        0int
    }
}

/// How many straight signatures sit in `[0, hi)`.
pub open spec fn scnt(hi: int) -> int
    decreases hi,
{
    if hi <= 0 {
        0
    } else {
        scnt(hi - 1) + s_ind(hi - 1)
    }
}

/// Inside the table range, every five-bit value is either a straight or
/// a non-straight signature.
proof fn lemma_cnt_split(hi: int)
    requires
        hi <= 7937,
    ensures
        nscnt(hi) + scnt(hi) == cntk(hi, 5),
    decreases hi,
{
    if hi > 0 {
        lemma_cnt_split(hi - 1);
    }
}

proof fn lemma_scnt_mono(lo: int, hi: int)
    requires
        lo <= hi,
    ensures
        scnt(lo) <= scnt(hi),
    decreases hi,
{
    if lo < hi && hi > 0 {
        lemma_scnt_mono(lo, hi - 1);
    }
}

proof fn lemma_nscnt_mono(lo: int, hi: int)
    requires
        lo <= hi,
    ensures
        nscnt(lo) <= nscnt(hi),
    decreases hi,
{
    if lo < hi && hi > 0 {
        lemma_nscnt_mono(lo, hi - 1);
    }
}

/// All ten straights lie inside the table range, so at least ten of the
/// five-bit values are straights.
proof fn lemma_ten_straights()
    ensures
        scnt(7937) >= 10,
{
    reveal_with_fuel(spec_popcount, 16);
    lemma_scnt_mono(0, 31);
    assert(s_ind(31) == 1);
    assert(scnt(32) >= 1);
    lemma_scnt_mono(32, 62);
    assert(s_ind(62) == 1);
    assert(scnt(63) >= 2);
    lemma_scnt_mono(63, 124);
    assert(s_ind(124) == 1);
    assert(scnt(125) >= 3);
    lemma_scnt_mono(125, 248);
    assert(s_ind(248) == 1);
    assert(scnt(249) >= 4);
    lemma_scnt_mono(249, 496);
    assert(s_ind(496) == 1);
    assert(scnt(497) >= 5);
    lemma_scnt_mono(497, 992);
    assert(s_ind(992) == 1);
    assert(scnt(993) >= 6);
    lemma_scnt_mono(993, 1984);
    assert(s_ind(1984) == 1);
    assert(scnt(1985) >= 7);
    lemma_scnt_mono(1985, 3968);
    assert(s_ind(3968) == 1);
    assert(scnt(3969) >= 8);
    lemma_scnt_mono(3969, 4111);
    assert(s_ind(4111) == 1);
    assert(scnt(4112) >= 9);
    lemma_scnt_mono(4112, 7936);
    assert(s_ind(7936) == 1);
    assert(scnt(7937) >= 10);
    lemma_scnt_mono(7937, 7937);
}

/// A signature's position is the number of non-straight signatures above
/// it.
proof fn lemma_rank_position_as_count(q: int)
    requires
        -1 <= q <= 7936,
    ensures
        spec_rank_position(q) == nscnt(7937) - nscnt(q + 1),
    decreases 7937 - q,
{
    if q < 7936 {
        lemma_rank_position_as_count(q + 1);
    }
}

/// Law (the other leg of the range property's upper bound): a non-straight
/// five-rank signature never sits more than 1276 places from the top of
/// its category, so the flush table stays within 1599 and the unique-ranks
/// table within 7462.
pub proof fn lemma_rank_position_max(q: int)
    requires
        is_five_rank_pattern(q),
        spec_straight_value(q) == 0,
    ensures
        0 <= spec_rank_position(q) <= 1276,
        323 <= spec_flushes_entry(q) <= 1599,
        6186 <= spec_unique_entry(q) <= 7462,
{
    lemma_rank_position_as_count(q);
    lemma_five_bit_count();
    lemma_cnt_split(7937);
    lemma_cntk_mono(7937, 8192, 5);
    lemma_ten_straights();
    lemma_nscnt_mono(0, q);
    assert(nscnt(q + 1) == nscnt(q) + 1);
    lemma_rank_position_bound(q);
}


/// The bit count of a thirteen-bit value, written out as the sum of its
/// bits; the bridge between the recursive count and bit-level reasoning.
proof fn lemma_bitsum13(q: u32)
    requires
        q < 8192,
    ensures
        spec_popcount(q as int) == (q / 1) % 2 + (q / 2) % 2 + (q / 4) % 2 + (q / 8) % 2 + (q / 16) % 2 + (q / 32) % 2 + (q / 64) % 2 + (q / 128) % 2 + (q / 256) % 2 + (q / 512) % 2 + (q / 1024) % 2 + (q / 2048) % 2 + (q / 4096) % 2,
{
    let i0 = q as int;
    let i1 = i0 / 2;
    assert(i1 < 4096);
    assert(spec_popcount(i0) == i0 % 2 + spec_popcount(i1));
    let i2 = i1 / 2;
    assert(i2 < 2048);
    assert(spec_popcount(i1) == i1 % 2 + spec_popcount(i2));
    let i3 = i2 / 2;
    assert(i3 < 1024);
    assert(spec_popcount(i2) == i2 % 2 + spec_popcount(i3));
    let i4 = i3 / 2;
    assert(i4 < 512);
    assert(spec_popcount(i3) == i3 % 2 + spec_popcount(i4));
    let i5 = i4 / 2;
    assert(i5 < 256);
    assert(spec_popcount(i4) == i4 % 2 + spec_popcount(i5));
    let i6 = i5 / 2;
    assert(i6 < 128);
    assert(spec_popcount(i5) == i5 % 2 + spec_popcount(i6));
    let i7 = i6 / 2;
    assert(i7 < 64);
    assert(spec_popcount(i6) == i6 % 2 + spec_popcount(i7));
    let i8 = i7 / 2;
    assert(i8 < 32);
    assert(spec_popcount(i7) == i7 % 2 + spec_popcount(i8));
    let i9 = i8 / 2;
    assert(i9 < 16);
    assert(spec_popcount(i8) == i8 % 2 + spec_popcount(i9));
    let i10 = i9 / 2;
    assert(i10 < 8);
    assert(spec_popcount(i9) == i9 % 2 + spec_popcount(i10));
    let i11 = i10 / 2;
    assert(i11 < 4);
    assert(spec_popcount(i10) == i10 % 2 + spec_popcount(i11));
    let i12 = i11 / 2;
    assert(i12 < 2);
    assert(spec_popcount(i11) == i11 % 2 + spec_popcount(i12));
    let i13 = i12 / 2;
    assert(i13 < 1);
    assert(spec_popcount(i12) == i12 % 2 + spec_popcount(i13));
    assert(spec_popcount(i13) == 0);
    assert(i1 == q as int / 2);
    assert(i2 == q as int / 4);
    assert(i3 == q as int / 8);
    assert(i4 == q as int / 16);
    assert(i5 == q as int / 32);
    assert(i6 == q as int / 64);
    assert(i7 == q as int / 128);
    assert(i8 == q as int / 256);
    assert(i9 == q as int / 512);
    assert(i10 == q as int / 1024);
    assert(i11 == q as int / 2048);
    assert(i12 == q as int / 4096);
    assert(i13 == q as int / 8192);
}


/// Five distinct legal cards of one suit carry five distinct ranks, so
/// the OR of their rank flags sets exactly five of the thirteen bits.
#[verifier::rlimit(100)]
proof fn lemma_flush_bits(c1: u32, c2: u32, c3: u32, c4: u32, c5: u32)
    by (bit_vector)
    requires
        is_legal_card(c1),
        is_legal_card(c2),
        is_legal_card(c3),
        is_legal_card(c4),
        is_legal_card(c5),
        c1 != c2 && c1 != c3 && c1 != c4 && c1 != c5 && c2 != c3 && c2 != c4 && c2 != c5 && c3
            != c4 && c3 != c5 && c4 != c5,
        ((((c1 & c2) & c3) & c4) & c5) & 0xF000u32 != 0,
    ensures
        ((((((c1 | c2) | c3) | c4) | c5) >> 16u32) / 1) % 2 + ((((((c1 | c2) | c3) | c4) | c5) >> 16u32) / 2) % 2 + ((((((c1 | c2) | c3) | c4) | c5) >> 16u32) / 4) % 2 + ((((((c1 | c2) | c3) | c4) | c5) >> 16u32) / 8) % 2 + ((((((c1 | c2) | c3) | c4) | c5) >> 16u32) / 16) % 2 + ((((((c1 | c2) | c3) | c4) | c5) >> 16u32) / 32) % 2 + ((((((c1 | c2) | c3) | c4) | c5) >> 16u32) / 64) % 2 + ((((((c1 | c2) | c3) | c4) | c5) >> 16u32) / 128) % 2 + ((((((c1 | c2) | c3) | c4) | c5) >> 16u32) / 256) % 2 + ((((((c1 | c2) | c3) | c4) | c5) >> 16u32) / 512) % 2 + ((((((c1 | c2) | c3) | c4) | c5) >> 16u32) / 1024) % 2 + ((((((c1 | c2) | c3) | c4) | c5) >> 16u32) / 2048) % 2 + ((((((c1 | c2) | c3) | c4) | c5) >> 16u32) / 4096) % 2 == 5,
        ((((c1 | c2) | c3) | c4) | c5) >> 16u32 < 8192,
{
}

/// Law (range property, flush leg): a valid flush hand's rank signature
/// is a five-rank pattern, so the flush table hands it a nonzero value.
pub proof fn lemma_valid_flush_is_pattern(s: Seq<CKCNumber>)
    requires
        s.len() == 5,
        crate::cards::five::spec_all_legal(s),
        crate::cards::spec_all_unique(s),
        crate::cards::five::spec_is_flush(s),
    ensures
        is_five_rank_pattern(crate::cards::five::spec_or_rank_bits(s) as int),
{
    lemma_flush_bits(s[0], s[1], s[2], s[3], s[4]);
    lemma_bitsum13(crate::cards::five::spec_or_rank_bits(s));
}


/// Five legal cards of five distinct ranks set exactly five of the
/// thirteen signature bits, whatever their suits.
#[verifier::rlimit(100)]
proof fn lemma_distinct_rank_bits(c1: u32, c2: u32, c3: u32, c4: u32, c5: u32)
    by (bit_vector)
    requires
        is_legal_card(c1),
        is_legal_card(c2),
        is_legal_card(c3),
        is_legal_card(c4),
        is_legal_card(c5),
        c1 & 0x1FFF0000 != c2 & 0x1FFF0000,
        c1 & 0x1FFF0000 != c3 & 0x1FFF0000,
        c1 & 0x1FFF0000 != c4 & 0x1FFF0000,
        c1 & 0x1FFF0000 != c5 & 0x1FFF0000,
        c2 & 0x1FFF0000 != c3 & 0x1FFF0000,
        c2 & 0x1FFF0000 != c4 & 0x1FFF0000,
        c2 & 0x1FFF0000 != c5 & 0x1FFF0000,
        c3 & 0x1FFF0000 != c4 & 0x1FFF0000,
        c3 & 0x1FFF0000 != c5 & 0x1FFF0000,
        c4 & 0x1FFF0000 != c5 & 0x1FFF0000,
    ensures
        ((((((c1 | c2) | c3) | c4) | c5) >> 16u32) / 1) % 2 + ((((((c1 | c2) | c3) | c4) | c5) >> 16u32) / 2) % 2 + ((((((c1 | c2) | c3) | c4) | c5) >> 16u32) / 4) % 2 + ((((((c1 | c2) | c3) | c4) | c5) >> 16u32) / 8) % 2 + ((((((c1 | c2) | c3) | c4) | c5) >> 16u32) / 16) % 2 + ((((((c1 | c2) | c3) | c4) | c5) >> 16u32) / 32) % 2 + ((((((c1 | c2) | c3) | c4) | c5) >> 16u32) / 64) % 2 + ((((((c1 | c2) | c3) | c4) | c5) >> 16u32) / 128) % 2 + ((((((c1 | c2) | c3) | c4) | c5) >> 16u32) / 256) % 2 + ((((((c1 | c2) | c3) | c4) | c5) >> 16u32) / 512) % 2 + ((((((c1 | c2) | c3) | c4) | c5) >> 16u32) / 1024) % 2 + ((((((c1 | c2) | c3) | c4) | c5) >> 16u32) / 2048) % 2 + ((((((c1 | c2) | c3) | c4) | c5) >> 16u32) / 4096) % 2 == 5,
        ((((c1 | c2) | c3) | c4) | c5) >> 16u32 < 8192,
{
}

/// Law (range property, distinct-rank leg): a hand of five legal cards
/// carrying five distinct ranks has a five-rank-pattern signature, so the
/// unique-ranks table hands it a nonzero value.
pub proof fn lemma_distinct_ranks_is_pattern(s: Seq<CKCNumber>)
    requires
        s.len() == 5,
        crate::cards::five::spec_all_legal(s),
        forall|i: int, j: int|
            0 <= i < j < 5 ==> (#[trigger] s[i]) & 0x1FFF0000 != (#[trigger] s[j]) & 0x1FFF0000,
    ensures
        is_five_rank_pattern(crate::cards::five::spec_or_rank_bits(s) as int),
{
    lemma_distinct_rank_bits(s[0], s[1], s[2], s[3], s[4]);
    lemma_bitsum13(crate::cards::five::spec_or_rank_bits(s));
}

} // verus!

