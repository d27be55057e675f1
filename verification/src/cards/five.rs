use vstd::prelude::*;
use vstd::assert_multisets_equal;
use vstd::multiset::Multiset;
use vstd::std_specs::bits::{u32_leading_zeros, u32_trailing_zeros};

use crate::cards::{spec_hand_valid, HandValidator};
use crate::hand_rank::{spec_hand_rank_from, HandRank, HandRankValue, NO_HAND_RANK_VALUE};
use crate::lookups::{
    entry_ok, is_five_rank_pattern, spec_flushes_entry, spec_straight_value, spec_unique_entry,
};
use crate::parse::spec_cards_from;
use crate::{is_legal_card, CKCNumber, CardNumber, HandError, PokerCard};

verus! {

broadcast use vstd::seq_lib::group_to_multiset_ensures;

// =====================================================================
// The five-card evaluator: validity gate, rank signature, flush test,
// unique-rank lookup, and the prime-product binary search.
// =====================================================================

/// The OR of all five packed cards.
pub open spec fn spec_or5(s: Seq<CKCNumber>) -> u32 {
    ((((s[0] | s[1]) | s[2]) | s[3]) | s[4])
}

/// The AND of all five packed cards.
pub open spec fn spec_and5(s: Seq<CKCNumber>) -> u32 {
    ((((s[0] & s[1]) & s[2]) & s[3]) & s[4])
}

/// The 13-bit rank signature: the OR of the hand moved down to the rank
/// flags.
pub open spec fn spec_or_rank_bits(s: Seq<CKCNumber>) -> u32 {
    spec_or5(s) >> CardNumber::RANK_FLAG_SHIFT
}

/// All five cards share a suit exactly when the AND of their suit
/// nibbles is nonzero.
pub open spec fn spec_is_flush(s: Seq<CKCNumber>) -> bool {
    spec_and5(s) & CardNumber::SUIT_FILTER != 0
}

/// The product of the five rank primes; unique per rank multiset.
pub open spec fn spec_prime_product(s: Seq<CKCNumber>) -> int {
    ((s[0] & 0x3F) as int) * ((s[1] & 0x3F) as int) * ((s[2] & 0x3F) as int) * ((s[3]
        & 0x3F) as int) * ((s[4] & 0x3F) as int)
}

/// Every slot holds one of the 52 legal cards.
pub open spec fn spec_all_legal(s: Seq<CKCNumber>) -> bool {
    forall|i: int| 0 <= i < s.len() ==> is_legal_card(#[trigger] s[i])
}

/// What the paired-rank step returns for prime product `p`. When some
/// canonical entry carries exactly this product, the result is such an
/// entry's value: the product table covers every canonical entry, so the
/// binary search cannot miss one. When no canonical entry carries the
/// product (possible only when one rank fills all five slots, which takes
/// a repeated card), the search reports index zero and the value beside
/// the smallest canonical product comes back: the algorithm's defined but
/// meaningless answer for input that slipped past the validity gate.
pub open spec fn spec_paired_post(p: int, r: HandRankValue) -> bool {
    if exists|v: u16| #[trigger] entry_ok(p as u32, v) {
        exists|v: u16| #[trigger] entry_ok(p as u32, v) && r == v
    } else {
        exists|p0: u32, v0: u16|
            #[trigger] entry_ok(p0, v0) && r == v0 && (forall|q: u32, w: u16|
                #[trigger] entry_ok(q, w) ==> p0 <= q)
    }
}

/// What the unvalidated five-card evaluation returns: the flush table
/// entry for flushes, the unique-ranks entry when it is set, and the
/// paired-rank lookup otherwise.
pub open spec fn spec_eval_post(s: Seq<CKCNumber>, r: HandRankValue) -> bool {
    if spec_is_flush(s) {
        r == spec_flushes_entry(spec_or_rank_bits(s) as int)
    } else if spec_unique_entry(spec_or_rank_bits(s) as int) != 0 {
        r == spec_unique_entry(spec_or_rank_bits(s) as int)
    } else {
        spec_paired_post(spec_prime_product(s), r)
    }
}

/// Whether the hand's rank signature spans exactly four steps or forms
/// the wheel, the straight test the bit layout affords.
pub open spec fn spec_is_straight(s: Seq<CKCNumber>) -> bool {
    let q = spec_or_rank_bits(s);
    u32_trailing_zeros(q) + u32_leading_zeros(q) == Five::STRAIGHT_PADDING || q
        == Five::WHEEL_OR_BITS
}

/// The OR of five legal cards carries at most five of the thirteen rank
/// flags, so the signature never reaches past the top five bits.
proof fn lemma_or_rank_bits_bound(c1: u32, c2: u32, c3: u32, c4: u32, c5: u32)
    by (bit_vector)
    requires
        is_legal_card(c1),
        is_legal_card(c2),
        is_legal_card(c3),
        is_legal_card(c4),
        is_legal_card(c5),
    ensures
        ((((c1 | c2) | c3) | c4) | c5) >> 16u32 <= 7936,
{
}

/// The low six bits of any card stay under 64.
proof fn lemma_prime_mask_bound(c: u32)
    by (bit_vector)
    ensures
        c & 0x3F < 64,
{
}


/// The multiset a five-card sequence stands for, spelled as inserts.
proof fn lemma_seq5_to_multiset(a: CKCNumber, b: CKCNumber, c: CKCNumber, d: CKCNumber, e: CKCNumber)
    ensures
        seq![a, b, c, d, e].to_multiset() =~= Multiset::empty().insert(a).insert(b).insert(
            c,
        ).insert(d).insert(e),
{
    broadcast use vstd::multiset::group_multiset_axioms;

    let s0 = Seq::<CKCNumber>::empty();
    let s1 = s0.push(a);
    let s2 = s1.push(b);
    let s3 = s2.push(c);
    let s4 = s3.push(d);
    let s5 = s4.push(e);
    assert forall|x: CKCNumber| s0.to_multiset().count(x) == 0 by {
        assert(!s0.contains(x));
    }
    assert(s0.to_multiset() =~= Multiset::<CKCNumber>::empty());
    assert(seq![a, b, c, d, e] =~= s5);
}

/// Exchanging two cards of a five-card sequence keeps its multiset:
/// one lemma per exchange of the sorting network.
proof fn lemma_swap_01(a: CKCNumber, b: CKCNumber, c: CKCNumber, d: CKCNumber, e: CKCNumber)
    ensures
        seq![b, a, c, d, e].to_multiset() == seq![a, b, c, d, e].to_multiset(),
{
    broadcast use vstd::multiset::group_multiset_axioms;

    lemma_seq5_to_multiset(a, b, c, d, e);
    lemma_seq5_to_multiset(b, a, c, d, e);
    assert_multisets_equal!(
        Multiset::empty().insert(b).insert(a).insert(c).insert(d).insert(e),
        Multiset::empty().insert(a).insert(b).insert(c).insert(d).insert(e)
    );
}

proof fn lemma_swap_34(a: CKCNumber, b: CKCNumber, c: CKCNumber, d: CKCNumber, e: CKCNumber)
    ensures
        seq![a, b, c, e, d].to_multiset() == seq![a, b, c, d, e].to_multiset(),
{
    broadcast use vstd::multiset::group_multiset_axioms;

    lemma_seq5_to_multiset(a, b, c, d, e);
    lemma_seq5_to_multiset(a, b, c, e, d);
    assert_multisets_equal!(
        Multiset::empty().insert(a).insert(b).insert(c).insert(e).insert(d),
        Multiset::empty().insert(a).insert(b).insert(c).insert(d).insert(e)
    );
}

proof fn lemma_swap_24(a: CKCNumber, b: CKCNumber, c: CKCNumber, d: CKCNumber, e: CKCNumber)
    ensures
        seq![a, b, e, d, c].to_multiset() == seq![a, b, c, d, e].to_multiset(),
{
    broadcast use vstd::multiset::group_multiset_axioms;

    lemma_seq5_to_multiset(a, b, c, d, e);
    lemma_seq5_to_multiset(a, b, e, d, c);
    assert_multisets_equal!(
        Multiset::empty().insert(a).insert(b).insert(e).insert(d).insert(c),
        Multiset::empty().insert(a).insert(b).insert(c).insert(d).insert(e)
    );
}

proof fn lemma_swap_23(a: CKCNumber, b: CKCNumber, c: CKCNumber, d: CKCNumber, e: CKCNumber)
    ensures
        seq![a, b, d, c, e].to_multiset() == seq![a, b, c, d, e].to_multiset(),
{
    broadcast use vstd::multiset::group_multiset_axioms;

    lemma_seq5_to_multiset(a, b, c, d, e);
    lemma_seq5_to_multiset(a, b, d, c, e);
    assert_multisets_equal!(
        Multiset::empty().insert(a).insert(b).insert(d).insert(c).insert(e),
        Multiset::empty().insert(a).insert(b).insert(c).insert(d).insert(e)
    );
}

proof fn lemma_swap_14(a: CKCNumber, b: CKCNumber, c: CKCNumber, d: CKCNumber, e: CKCNumber)
    ensures
        seq![a, e, c, d, b].to_multiset() == seq![a, b, c, d, e].to_multiset(),
{
    broadcast use vstd::multiset::group_multiset_axioms;

    lemma_seq5_to_multiset(a, b, c, d, e);
    lemma_seq5_to_multiset(a, e, c, d, b);
    assert_multisets_equal!(
        Multiset::empty().insert(a).insert(e).insert(c).insert(d).insert(b),
        Multiset::empty().insert(a).insert(b).insert(c).insert(d).insert(e)
    );
}

proof fn lemma_swap_03(a: CKCNumber, b: CKCNumber, c: CKCNumber, d: CKCNumber, e: CKCNumber)
    ensures
        seq![d, b, c, a, e].to_multiset() == seq![a, b, c, d, e].to_multiset(),
{
    broadcast use vstd::multiset::group_multiset_axioms;

    lemma_seq5_to_multiset(a, b, c, d, e);
    lemma_seq5_to_multiset(d, b, c, a, e);
    assert_multisets_equal!(
        Multiset::empty().insert(d).insert(b).insert(c).insert(a).insert(e),
        Multiset::empty().insert(a).insert(b).insert(c).insert(d).insert(e)
    );
}

proof fn lemma_swap_02(a: CKCNumber, b: CKCNumber, c: CKCNumber, d: CKCNumber, e: CKCNumber)
    ensures
        seq![c, b, a, d, e].to_multiset() == seq![a, b, c, d, e].to_multiset(),
{
    broadcast use vstd::multiset::group_multiset_axioms;

    lemma_seq5_to_multiset(a, b, c, d, e);
    lemma_seq5_to_multiset(c, b, a, d, e);
    assert_multisets_equal!(
        Multiset::empty().insert(c).insert(b).insert(a).insert(d).insert(e),
        Multiset::empty().insert(a).insert(b).insert(c).insert(d).insert(e)
    );
}

proof fn lemma_swap_13(a: CKCNumber, b: CKCNumber, c: CKCNumber, d: CKCNumber, e: CKCNumber)
    ensures
        seq![a, d, c, b, e].to_multiset() == seq![a, b, c, d, e].to_multiset(),
{
    broadcast use vstd::multiset::group_multiset_axioms;

    lemma_seq5_to_multiset(a, b, c, d, e);
    lemma_seq5_to_multiset(a, d, c, b, e);
    assert_multisets_equal!(
        Multiset::empty().insert(a).insert(d).insert(c).insert(b).insert(e),
        Multiset::empty().insert(a).insert(b).insert(c).insert(d).insert(e)
    );
}

proof fn lemma_swap_12(a: CKCNumber, b: CKCNumber, c: CKCNumber, d: CKCNumber, e: CKCNumber)
    ensures
        seq![a, c, b, d, e].to_multiset() == seq![a, b, c, d, e].to_multiset(),
{
    broadcast use vstd::multiset::group_multiset_axioms;

    lemma_seq5_to_multiset(a, b, c, d, e);
    lemma_seq5_to_multiset(a, c, b, d, e);
    assert_multisets_equal!(
        Multiset::empty().insert(a).insert(c).insert(b).insert(d).insert(e),
        Multiset::empty().insert(a).insert(b).insert(c).insert(d).insert(e)
    );
}


/// Swapping a pair keeps its multiset.
pub proof fn lemma_two_swap_multiset(a: CKCNumber, b: CKCNumber)
    ensures
        seq![b, a].to_multiset() == seq![a, b].to_multiset(),
{
    broadcast use vstd::multiset::group_multiset_axioms;

    let e = Seq::<CKCNumber>::empty();
    assert forall|x: CKCNumber| e.to_multiset().count(x) == 0 by {
        assert(!e.contains(x));
    }
    assert(e.to_multiset() =~= Multiset::<CKCNumber>::empty());
    assert(seq![a, b] =~= e.push(a).push(b));
    assert(seq![b, a] =~= e.push(b).push(a));
    assert_multisets_equal!(
        Multiset::empty().insert(b).insert(a),
        Multiset::empty().insert(a).insert(b)
    );
}

/// Orders a pair of cards, the higher one first.
fn exchange(x: CKCNumber, y: CKCNumber) -> (r: (CKCNumber, CKCNumber))
    ensures
        r.0 == if x >= y { x } else { y },
        r.1 == if x >= y { y } else { x },
{
    if x < y {
        (y, x)
    } else {
        (x, y)
    }
}

proof fn lemma_exchange_0_1(v0: CKCNumber, v1: CKCNumber, v2: CKCNumber, v3: CKCNumber, v4: CKCNumber, n0: CKCNumber, n1: CKCNumber)
    requires
        (n0 == v0 && n1 == v1) || (n0 == v1 && n1 == v0),
    ensures
        seq![n0, n1, v2, v3, v4].to_multiset() == seq![v0, v1, v2, v3, v4].to_multiset(),
        spec_or5(seq![n0, n1, v2, v3, v4]) == spec_or5(seq![v0, v1, v2, v3, v4]),
        spec_and5(seq![n0, n1, v2, v3, v4]) == spec_and5(seq![v0, v1, v2, v3, v4]),
        spec_prime_product(seq![n0, n1, v2, v3, v4]) == spec_prime_product(seq![v0, v1, v2, v3, v4]),
{
    if n0 == v0 && n1 == v1 {
        assert(seq![n0, n1, v2, v3, v4] =~= seq![v0, v1, v2, v3, v4]);
    } else {
        lemma_swap_01(v0, v1, v2, v3, v4);
        assert(seq![n0, n1, v2, v3, v4] =~= seq![v1, v0, v2, v3, v4]);
        assert(v1 | v0 | v2 | v3 | v4 == v0 | v1 | v2 | v3 | v4) by (bit_vector);
        assert(v1 & v0 & v2 & v3 & v4 == v0 & v1 & v2 & v3 & v4) by (bit_vector);
        let p0 = (v0 & 0x3F) as int;
        let p1 = (v1 & 0x3F) as int;
        let p2 = (v2 & 0x3F) as int;
        let p3 = (v3 & 0x3F) as int;
        let p4 = (v4 & 0x3F) as int;
        assert(p1 * p0 * p2 * p3 * p4 == p0 * p1 * p2 * p3 * p4) by (nonlinear_arith);
    }
}

proof fn lemma_exchange_3_4(v0: CKCNumber, v1: CKCNumber, v2: CKCNumber, v3: CKCNumber, v4: CKCNumber, n3: CKCNumber, n4: CKCNumber)
    requires
        (n3 == v3 && n4 == v4) || (n3 == v4 && n4 == v3),
    ensures
        seq![v0, v1, v2, n3, n4].to_multiset() == seq![v0, v1, v2, v3, v4].to_multiset(),
        spec_or5(seq![v0, v1, v2, n3, n4]) == spec_or5(seq![v0, v1, v2, v3, v4]),
        spec_and5(seq![v0, v1, v2, n3, n4]) == spec_and5(seq![v0, v1, v2, v3, v4]),
        spec_prime_product(seq![v0, v1, v2, n3, n4]) == spec_prime_product(seq![v0, v1, v2, v3, v4]),
{
    if n3 == v3 && n4 == v4 {
        assert(seq![v0, v1, v2, n3, n4] =~= seq![v0, v1, v2, v3, v4]);
    } else {
        lemma_swap_34(v0, v1, v2, v3, v4);
        assert(seq![v0, v1, v2, n3, n4] =~= seq![v0, v1, v2, v4, v3]);
        assert(v0 | v1 | v2 | v4 | v3 == v0 | v1 | v2 | v3 | v4) by (bit_vector);
        assert(v0 & v1 & v2 & v4 & v3 == v0 & v1 & v2 & v3 & v4) by (bit_vector);
        let p0 = (v0 & 0x3F) as int;
        let p1 = (v1 & 0x3F) as int;
        let p2 = (v2 & 0x3F) as int;
        let p3 = (v3 & 0x3F) as int;
        let p4 = (v4 & 0x3F) as int;
        assert(p0 * p1 * p2 * p4 * p3 == p0 * p1 * p2 * p3 * p4) by (nonlinear_arith);
    }
}

proof fn lemma_exchange_2_4(v0: CKCNumber, v1: CKCNumber, v2: CKCNumber, v3: CKCNumber, v4: CKCNumber, n2: CKCNumber, n4: CKCNumber)
    requires
        (n2 == v2 && n4 == v4) || (n2 == v4 && n4 == v2),
    ensures
        seq![v0, v1, n2, v3, n4].to_multiset() == seq![v0, v1, v2, v3, v4].to_multiset(),
        spec_or5(seq![v0, v1, n2, v3, n4]) == spec_or5(seq![v0, v1, v2, v3, v4]),
        spec_and5(seq![v0, v1, n2, v3, n4]) == spec_and5(seq![v0, v1, v2, v3, v4]),
        spec_prime_product(seq![v0, v1, n2, v3, n4]) == spec_prime_product(seq![v0, v1, v2, v3, v4]),
{
    if n2 == v2 && n4 == v4 {
        assert(seq![v0, v1, n2, v3, n4] =~= seq![v0, v1, v2, v3, v4]);
    } else {
        lemma_swap_24(v0, v1, v2, v3, v4);
        assert(seq![v0, v1, n2, v3, n4] =~= seq![v0, v1, v4, v3, v2]);
        assert(v0 | v1 | v4 | v3 | v2 == v0 | v1 | v2 | v3 | v4) by (bit_vector);
        assert(v0 & v1 & v4 & v3 & v2 == v0 & v1 & v2 & v3 & v4) by (bit_vector);
        let p0 = (v0 & 0x3F) as int;
        let p1 = (v1 & 0x3F) as int;
        let p2 = (v2 & 0x3F) as int;
        let p3 = (v3 & 0x3F) as int;
        let p4 = (v4 & 0x3F) as int;
        assert(p0 * p1 * p4 * p3 * p2 == p0 * p1 * p2 * p3 * p4) by (nonlinear_arith);
    }
}

proof fn lemma_exchange_2_3(v0: CKCNumber, v1: CKCNumber, v2: CKCNumber, v3: CKCNumber, v4: CKCNumber, n2: CKCNumber, n3: CKCNumber)
    requires
        (n2 == v2 && n3 == v3) || (n2 == v3 && n3 == v2),
    ensures
        seq![v0, v1, n2, n3, v4].to_multiset() == seq![v0, v1, v2, v3, v4].to_multiset(),
        spec_or5(seq![v0, v1, n2, n3, v4]) == spec_or5(seq![v0, v1, v2, v3, v4]),
        spec_and5(seq![v0, v1, n2, n3, v4]) == spec_and5(seq![v0, v1, v2, v3, v4]),
        spec_prime_product(seq![v0, v1, n2, n3, v4]) == spec_prime_product(seq![v0, v1, v2, v3, v4]),
{
    if n2 == v2 && n3 == v3 {
        assert(seq![v0, v1, n2, n3, v4] =~= seq![v0, v1, v2, v3, v4]);
    } else {
        lemma_swap_23(v0, v1, v2, v3, v4);
        assert(seq![v0, v1, n2, n3, v4] =~= seq![v0, v1, v3, v2, v4]);
        assert(v0 | v1 | v3 | v2 | v4 == v0 | v1 | v2 | v3 | v4) by (bit_vector);
        assert(v0 & v1 & v3 & v2 & v4 == v0 & v1 & v2 & v3 & v4) by (bit_vector);
        let p0 = (v0 & 0x3F) as int;
        let p1 = (v1 & 0x3F) as int;
        let p2 = (v2 & 0x3F) as int;
        let p3 = (v3 & 0x3F) as int;
        let p4 = (v4 & 0x3F) as int;
        assert(p0 * p1 * p3 * p2 * p4 == p0 * p1 * p2 * p3 * p4) by (nonlinear_arith);
    }
}

proof fn lemma_exchange_1_4(v0: CKCNumber, v1: CKCNumber, v2: CKCNumber, v3: CKCNumber, v4: CKCNumber, n1: CKCNumber, n4: CKCNumber)
    requires
        (n1 == v1 && n4 == v4) || (n1 == v4 && n4 == v1),
    ensures
        seq![v0, n1, v2, v3, n4].to_multiset() == seq![v0, v1, v2, v3, v4].to_multiset(),
        spec_or5(seq![v0, n1, v2, v3, n4]) == spec_or5(seq![v0, v1, v2, v3, v4]),
        spec_and5(seq![v0, n1, v2, v3, n4]) == spec_and5(seq![v0, v1, v2, v3, v4]),
        spec_prime_product(seq![v0, n1, v2, v3, n4]) == spec_prime_product(seq![v0, v1, v2, v3, v4]),
{
    if n1 == v1 && n4 == v4 {
        assert(seq![v0, n1, v2, v3, n4] =~= seq![v0, v1, v2, v3, v4]);
    } else {
        lemma_swap_14(v0, v1, v2, v3, v4);
        assert(seq![v0, n1, v2, v3, n4] =~= seq![v0, v4, v2, v3, v1]);
        assert(v0 | v4 | v2 | v3 | v1 == v0 | v1 | v2 | v3 | v4) by (bit_vector);
        assert(v0 & v4 & v2 & v3 & v1 == v0 & v1 & v2 & v3 & v4) by (bit_vector);
        let p0 = (v0 & 0x3F) as int;
        let p1 = (v1 & 0x3F) as int;
        let p2 = (v2 & 0x3F) as int;
        let p3 = (v3 & 0x3F) as int;
        let p4 = (v4 & 0x3F) as int;
        assert(p0 * p4 * p2 * p3 * p1 == p0 * p1 * p2 * p3 * p4) by (nonlinear_arith);
    }
}

proof fn lemma_exchange_0_3(v0: CKCNumber, v1: CKCNumber, v2: CKCNumber, v3: CKCNumber, v4: CKCNumber, n0: CKCNumber, n3: CKCNumber)
    requires
        (n0 == v0 && n3 == v3) || (n0 == v3 && n3 == v0),
    ensures
        seq![n0, v1, v2, n3, v4].to_multiset() == seq![v0, v1, v2, v3, v4].to_multiset(),
        spec_or5(seq![n0, v1, v2, n3, v4]) == spec_or5(seq![v0, v1, v2, v3, v4]),
        spec_and5(seq![n0, v1, v2, n3, v4]) == spec_and5(seq![v0, v1, v2, v3, v4]),
        spec_prime_product(seq![n0, v1, v2, n3, v4]) == spec_prime_product(seq![v0, v1, v2, v3, v4]),
{
    if n0 == v0 && n3 == v3 {
        assert(seq![n0, v1, v2, n3, v4] =~= seq![v0, v1, v2, v3, v4]);
    } else {
        lemma_swap_03(v0, v1, v2, v3, v4);
        assert(seq![n0, v1, v2, n3, v4] =~= seq![v3, v1, v2, v0, v4]);
        assert(v3 | v1 | v2 | v0 | v4 == v0 | v1 | v2 | v3 | v4) by (bit_vector);
        assert(v3 & v1 & v2 & v0 & v4 == v0 & v1 & v2 & v3 & v4) by (bit_vector);
        let p0 = (v0 & 0x3F) as int;
        let p1 = (v1 & 0x3F) as int;
        let p2 = (v2 & 0x3F) as int;
        let p3 = (v3 & 0x3F) as int;
        let p4 = (v4 & 0x3F) as int;
        assert(p3 * p1 * p2 * p0 * p4 == p0 * p1 * p2 * p3 * p4) by (nonlinear_arith);
    }
}

proof fn lemma_exchange_0_2(v0: CKCNumber, v1: CKCNumber, v2: CKCNumber, v3: CKCNumber, v4: CKCNumber, n0: CKCNumber, n2: CKCNumber)
    requires
        (n0 == v0 && n2 == v2) || (n0 == v2 && n2 == v0),
    ensures
        seq![n0, v1, n2, v3, v4].to_multiset() == seq![v0, v1, v2, v3, v4].to_multiset(),
        spec_or5(seq![n0, v1, n2, v3, v4]) == spec_or5(seq![v0, v1, v2, v3, v4]),
        spec_and5(seq![n0, v1, n2, v3, v4]) == spec_and5(seq![v0, v1, v2, v3, v4]),
        spec_prime_product(seq![n0, v1, n2, v3, v4]) == spec_prime_product(seq![v0, v1, v2, v3, v4]),
{
    if n0 == v0 && n2 == v2 {
        assert(seq![n0, v1, n2, v3, v4] =~= seq![v0, v1, v2, v3, v4]);
    } else {
        lemma_swap_02(v0, v1, v2, v3, v4);
        assert(seq![n0, v1, n2, v3, v4] =~= seq![v2, v1, v0, v3, v4]);
        assert(v2 | v1 | v0 | v3 | v4 == v0 | v1 | v2 | v3 | v4) by (bit_vector);
        assert(v2 & v1 & v0 & v3 & v4 == v0 & v1 & v2 & v3 & v4) by (bit_vector);
        let p0 = (v0 & 0x3F) as int;
        let p1 = (v1 & 0x3F) as int;
        let p2 = (v2 & 0x3F) as int;
        let p3 = (v3 & 0x3F) as int;
        let p4 = (v4 & 0x3F) as int;
        assert(p2 * p1 * p0 * p3 * p4 == p0 * p1 * p2 * p3 * p4) by (nonlinear_arith);
    }
}

proof fn lemma_exchange_1_3(v0: CKCNumber, v1: CKCNumber, v2: CKCNumber, v3: CKCNumber, v4: CKCNumber, n1: CKCNumber, n3: CKCNumber)
    requires
        (n1 == v1 && n3 == v3) || (n1 == v3 && n3 == v1),
    ensures
        seq![v0, n1, v2, n3, v4].to_multiset() == seq![v0, v1, v2, v3, v4].to_multiset(),
        spec_or5(seq![v0, n1, v2, n3, v4]) == spec_or5(seq![v0, v1, v2, v3, v4]),
        spec_and5(seq![v0, n1, v2, n3, v4]) == spec_and5(seq![v0, v1, v2, v3, v4]),
        spec_prime_product(seq![v0, n1, v2, n3, v4]) == spec_prime_product(seq![v0, v1, v2, v3, v4]),
{
    if n1 == v1 && n3 == v3 {
        assert(seq![v0, n1, v2, n3, v4] =~= seq![v0, v1, v2, v3, v4]);
    } else {
        lemma_swap_13(v0, v1, v2, v3, v4);
        assert(seq![v0, n1, v2, n3, v4] =~= seq![v0, v3, v2, v1, v4]);
        assert(v0 | v3 | v2 | v1 | v4 == v0 | v1 | v2 | v3 | v4) by (bit_vector);
        assert(v0 & v3 & v2 & v1 & v4 == v0 & v1 & v2 & v3 & v4) by (bit_vector);
        let p0 = (v0 & 0x3F) as int;
        let p1 = (v1 & 0x3F) as int;
        let p2 = (v2 & 0x3F) as int;
        let p3 = (v3 & 0x3F) as int;
        let p4 = (v4 & 0x3F) as int;
        assert(p0 * p3 * p2 * p1 * p4 == p0 * p1 * p2 * p3 * p4) by (nonlinear_arith);
    }
}

proof fn lemma_exchange_1_2(v0: CKCNumber, v1: CKCNumber, v2: CKCNumber, v3: CKCNumber, v4: CKCNumber, n1: CKCNumber, n2: CKCNumber)
    requires
        (n1 == v1 && n2 == v2) || (n1 == v2 && n2 == v1),
    ensures
        seq![v0, n1, n2, v3, v4].to_multiset() == seq![v0, v1, v2, v3, v4].to_multiset(),
        spec_or5(seq![v0, n1, n2, v3, v4]) == spec_or5(seq![v0, v1, v2, v3, v4]),
        spec_and5(seq![v0, n1, n2, v3, v4]) == spec_and5(seq![v0, v1, v2, v3, v4]),
        spec_prime_product(seq![v0, n1, n2, v3, v4]) == spec_prime_product(seq![v0, v1, v2, v3, v4]),
{
    if n1 == v1 && n2 == v2 {
        assert(seq![v0, n1, n2, v3, v4] =~= seq![v0, v1, v2, v3, v4]);
    } else {
        lemma_swap_12(v0, v1, v2, v3, v4);
        assert(seq![v0, n1, n2, v3, v4] =~= seq![v0, v2, v1, v3, v4]);
        assert(v0 | v2 | v1 | v3 | v4 == v0 | v1 | v2 | v3 | v4) by (bit_vector);
        assert(v0 & v2 & v1 & v3 & v4 == v0 & v1 & v2 & v3 & v4) by (bit_vector);
        let p0 = (v0 & 0x3F) as int;
        let p1 = (v1 & 0x3F) as int;
        let p2 = (v2 & 0x3F) as int;
        let p3 = (v3 & 0x3F) as int;
        let p4 = (v4 & 0x3F) as int;
        assert(p0 * p2 * p1 * p3 * p4 == p0 * p1 * p2 * p3 * p4) by (nonlinear_arith);
    }
}

/// A hand of exactly five cards: the unit the evaluator ranks.
#[derive(Clone, Copy, Debug, Hash)]
pub struct Five(pub [CKCNumber; 5]);

impl View for Five {
    type V = Seq<CKCNumber>;

    open spec fn view(&self) -> Seq<CKCNumber> {
        self.0@
    }
}

impl Five {
    pub const POSSIBLE_COMBINATIONS: usize = 7937;

    /// The leading plus trailing zero count of a non-wheel straight's
    /// rank signature inside a 32-bit word.
    pub const STRAIGHT_PADDING: u32 = 27;

    /// The rank signature of the wheel, the five-high straight.
    pub const WHEEL_OR_BITS: u32 = 4111;

    pub fn new(
        first: CKCNumber,
        second: CKCNumber,
        third: CKCNumber,
        forth: CKCNumber,
        fifth: CKCNumber,
    ) -> (r: Five)
        ensures
            r@ =~= seq![first, second, third, forth, fifth],
    {
        Five([first, second, third, forth, fifth])
    }

    //region accessors

    pub fn second(&self) -> (r: CKCNumber)
        ensures
            r == self@[1],
    {
        self.0[1]
    }

    pub fn third(&self) -> (r: CKCNumber)
        ensures
            r == self@[2],
    {
        self.0[2]
    }

    pub fn forth(&self) -> (r: CKCNumber)
        ensures
            r == self@[3],
    {
        self.0[3]
    }

    pub fn fifth(&self) -> (r: CKCNumber)
        ensures
            r == self@[4],
    {
        self.0[4]
    }

    pub fn set_first(&mut self, card_number: CKCNumber)
        ensures
            final(self)@ =~= old(self)@.update(0, card_number),
    {
        self.0[0] = card_number;
    }

    pub fn set_second(&mut self, card_number: CKCNumber)
        ensures
            final(self)@ =~= old(self)@.update(1, card_number),
    {
        self.0[1] = card_number;
    }

    pub fn set_third(&mut self, card_number: CKCNumber)
        ensures
            final(self)@ =~= old(self)@.update(2, card_number),
    {
        self.0[2] = card_number;
    }

    pub fn set_forth(&mut self, card_number: CKCNumber)
        ensures
            final(self)@ =~= old(self)@.update(3, card_number),
    {
        self.0[3] = card_number;
    }

    pub fn set_fifth(&mut self, card_number: CKCNumber)
        ensures
            final(self)@ =~= old(self)@.update(4, card_number),
    {
        self.0[4] = card_number;
    }

    pub fn to_arr(&self) -> (r: [CKCNumber; 5])
        ensures
            r@ =~= self@,
    {
        self.0
    }

    //endregion

    /// Builds a hand from five whitespace-separated card indexes; fewer
    /// than five indexes fail with `InvalidIndex`.
    pub fn try_from(index: &str) -> (r: Result<Five, HandError>)
        ensures
            ({
                match spec_cards_from(index@, 0, 5) {
                    Some(cards) => r matches Ok(five) && five@ =~= cards,
                    None => r matches Err(e) && e == HandError::InvalidIndex,
                }
            }),
    {
        match crate::parse::five_from_index(index) {
            None => Err(HandError::InvalidIndex),
            Some(cards) => Ok(Five(cards)),
        }
    }

    //region evaluate

    /// The full rank triple of the hand, trusting the caller's cards.
    pub fn hand_rank(&self) -> (r: HandRank)
        requires
            spec_all_legal(self@),
        ensures
            r == spec_hand_rank_from(r.value),
            spec_eval_post(self@, r.value),
    {
        HandRank::from(self.hand_rank_value())
    }

    /// The full rank triple of the hand, after the validity gate.
    pub fn hand_rank_validated(&self) -> (r: HandRank)
        ensures
            r == spec_hand_rank_from(r.value),
            !spec_hand_valid(self@) ==> r.value == 0,
            spec_hand_valid(self@) ==> spec_eval_post(self@, r.value) && 1 <= r.value <= 7462,
    {
        HandRank::from(self.hand_rank_value_validated())
    }

    /// The heart of the evaluator. The caller vouches that all five
    /// cards are legal; duplicates still give a defined (but wrong)
    /// answer, which is why external callers go through the validated
    /// entry point.
    pub fn hand_rank_value(&self) -> (r: HandRankValue)
        requires
            spec_all_legal(self@),
        ensures
            spec_eval_post(self@, r),
    {
        proof {
            lemma_or_rank_bits_bound(self@[0], self@[1], self@[2], self@[3], self@[4]);
        }
        let i = self.or_rank_bits() as usize;
        let (flushes, unique5) = crate::lookups::flush_and_unique_tables();

        if self.is_flush() {
            return flushes[i];
        }
        let unique = unique5[i];
        match unique {
            0 => self.not_unique(),
            _ => unique,
        }
    }

    /// The evaluator behind the validity gate: corrupt or repeated cards
    /// short-circuit to the unrankable value 0.
    pub fn hand_rank_value_validated(&self) -> (r: HandRankValue)
        ensures
            !spec_hand_valid(self@) ==> r == NO_HAND_RANK_VALUE,
            spec_hand_valid(self@) ==> spec_eval_post(self@, r) && 1 <= r <= 7462,
    {
        if !self.is_valid() {
            return NO_HAND_RANK_VALUE;
        }
        let r = self.hand_rank_value();
        proof {
            lemma_valid_eval_in_range(self@, r);
        }
        r
    }

    /// Binary search over the ascending product table: the index of
    /// `key` when the table holds it, index 0 otherwise.
    pub fn find_in_products(products: &Vec<u32>, key: usize) -> (r: usize)
        requires
            products@.len() >= 1,
            forall|i: int, j: int|
                0 <= i < j < products@.len() ==> products@[i] <= products@[j],
        ensures
            r < products@.len(),
            (exists|i: int| 0 <= i < products@.len() && products@[i] == key)
                ==> products@[r as int] == key,
            !(exists|i: int| 0 <= i < products@.len() && products@[i] == key) ==> r == 0,
    {
        let mut low: usize = 0;
        let mut high: usize = products.len();

        while low < high
            invariant
                low <= high <= products@.len(),
                forall|i: int, j: int|
                    0 <= i < j < products@.len() ==> products@[i] <= products@[j],
                forall|i: int| 0 <= i < low ==> (#[trigger] products@[i]) < key,
                forall|i: int| high <= i < products@.len() ==> (#[trigger] products@[i]) > key,
            decreases high - low,
        {
            let mid = low + (high - low) / 2;
            let product = products[mid] as usize;
            if product < key {
                low = mid + 1;
            } else if product > key {
                high = mid;
            } else {
                return mid;
            }
        }
        0
    }

    /// The paired-rank step: looks the hand's prime product up in the
    /// product table and returns the value stored beside it.
    fn not_unique(&self) -> (r: HandRankValue)
        ensures
            spec_paired_post(spec_prime_product(self@), r),
    {
        let (products, values) = crate::lookups::products_and_values();
        let key = self.multiply_primes();
        let idx = Five::find_in_products(&products, key);
        proof {
            lemma_prime_mask_bound(self@[0]);
            lemma_prime_mask_bound(self@[1]);
            lemma_prime_mask_bound(self@[2]);
            lemma_prime_mask_bound(self@[3]);
            lemma_prime_mask_bound(self@[4]);
            let p = spec_prime_product(self@);
            assert(p < 0x40000000) by (nonlinear_arith)
                requires
                    p == ((self@[0] & 0x3F) as int) * ((self@[1] & 0x3F) as int) * ((self@[2]
                        & 0x3F) as int) * ((self@[3] & 0x3F) as int) * ((self@[4]
                        & 0x3F) as int),
                    (self@[0] & 0x3F) < 64,
                    (self@[1] & 0x3F) < 64,
                    (self@[2] & 0x3F) < 64,
                    (self@[3] & 0x3F) < 64,
                    (self@[4] & 0x3F) < 64,
            ;
            assert(p >= 0) by (nonlinear_arith)
                requires
                    p == ((self@[0] & 0x3F) as int) * ((self@[1] & 0x3F) as int) * ((self@[2]
                        & 0x3F) as int) * ((self@[3] & 0x3F) as int) * ((self@[4]
                        & 0x3F) as int),
                    (self@[0] & 0x3F) >= 0,
                    (self@[1] & 0x3F) >= 0,
                    (self@[2] & 0x3F) >= 0,
                    (self@[3] & 0x3F) >= 0,
                    (self@[4] & 0x3F) >= 0,
            ;
            if exists|i: int| 0 <= i < products@.len() && products@[i] == key {
                assert(products@[idx as int] == key);
                assert(entry_ok(p as u32, values@[idx as int]));
            } else {
                // no table entry carries this product, and the table
                // covers every canonical entry, so no canonical entry
                // carries it either
                assert(idx == 0);
                assert forall|v: u16| !(#[trigger] entry_ok(p as u32, v)) by {
                    if entry_ok(p as u32, v) {
                        assert(exists|i: int|
                            0 <= i < 4888 && (#[trigger] products@[i]) == p as u32);
                    }
                }
                assert(entry_ok(products@[0], values@[0]));
                assert forall|q: u32, w: u16| #[trigger] entry_ok(q, w) implies products@[0]
                    <= q by {
                    let i = choose|i: int| 0 <= i < 4888 && (#[trigger] products@[i]) == q;
                    assert(products@[0] <= products@[i]);
                }
            }
        }
        values[idx]
    }

    //endregion

    //region bitwise

    pub fn and_bits(&self) -> (r: u32)
        ensures
            r == spec_and5(self@),
    {
        self.first() & self.second() & self.third() & self.forth() & self.fifth()
    }

    pub fn is_flush(&self) -> (r: bool)
        ensures
            r == spec_is_flush(self@),
    {
        (self.and_bits() & CardNumber::SUIT_FILTER) != 0
    }

    /// The bit-span straight test: the signature's leading and trailing
    /// zeros add up to the straight padding, or the hand is the wheel,
    /// whose ace sits apart from its other four ranks.
    pub fn is_straight(&self) -> (r: bool)
        ensures
            r == spec_is_straight(self@),
    {
        let rank_bits = self.or_rank_bits();
        proof {
            vstd::std_specs::bits::axiom_u32_trailing_zeros(rank_bits);
            vstd::std_specs::bits::axiom_u32_leading_zeros(rank_bits);
        }
        ((rank_bits.trailing_zeros() + rank_bits.leading_zeros()) == Five::STRAIGHT_PADDING)
            || rank_bits == Five::WHEEL_OR_BITS
    }

    pub fn is_straight_flush(&self) -> (r: bool)
        ensures
            r == (spec_is_straight(self@) && spec_is_flush(self@)),
    {
        self.is_straight() && self.is_flush()
    }

    pub fn is_wheel(&self) -> (r: bool)
        ensures
            r == (spec_or_rank_bits(self@) == Five::WHEEL_OR_BITS),
    {
        self.or_rank_bits() == Five::WHEEL_OR_BITS
    }

    /// The product of the five rank primes, the key of the paired-rank
    /// tables.
    pub fn multiply_primes(&self) -> (r: usize)
        ensures
            r == spec_prime_product(self@),
    {
        let p1 = self.first().get_rank_prime() as usize;
        let p2 = self.second().get_rank_prime() as usize;
        let p3 = self.third().get_rank_prime() as usize;
        let p4 = self.forth().get_rank_prime() as usize;
        let p5 = self.fifth().get_rank_prime() as usize;
        proof {
            assert(p1 * p2 < 4096) by (nonlinear_arith)
                requires p1 < 64 && p2 < 64 && p1 >= 0 && p2 >= 0;
        }
        let m2 = p1 * p2;
        proof {
            assert(m2 * p3 < 262144) by (nonlinear_arith)
                requires m2 < 4096 && p3 < 64 && m2 >= 0 && p3 >= 0;
        }
        let m3 = m2 * p3;
        proof {
            assert(m3 * p4 < 16777216) by (nonlinear_arith)
                requires m3 < 262144 && p4 < 64 && m3 >= 0 && p4 >= 0;
        }
        let m4 = m3 * p4;
        proof {
            assert(m4 * p5 < 1073741824) by (nonlinear_arith)
                requires m4 < 16777216 && p5 < 64 && m4 >= 0 && p5 >= 0;
        }
        m4 * p5
    }

    pub fn or_bits(&self) -> (r: u32)
        ensures
            r == spec_or5(self@),
    {
        self.first() | self.second() | self.third() | self.forth() | self.fifth()
    }

    pub fn or_rank_bits(&self) -> (r: u32)
        ensures
            r == spec_or_rank_bits(self@),
    {
        self.or_bits() >> CardNumber::RANK_FLAG_SHIFT
    }

    //endregion bitwise
}

impl PartialEq for Five {
    /// Two hands are equal when they hold the same cards in the same
    /// order.
    fn eq(&self, other: &Five) -> (r: bool) {
        self.0[0] == other.0[0] && self.0[1] == other.0[1] && self.0[2] == other.0[2]
            && self.0[3] == other.0[3] && self.0[4] == other.0[4]
    }
}

impl Eq for Five {

}

impl vstd::std_specs::cmp::PartialEqSpecImpl for Five {
    open spec fn obeys_eq_spec() -> bool {
        true
    }

    open spec fn eq_spec(&self, other: &Five) -> bool {
        self@ =~= other@
    }
}

impl Default for Five {
    /// The default hand holds five blank cards.
    fn default() -> (r: Five)
        ensures
            r@ =~= seq![0u32, 0u32, 0u32, 0u32, 0u32],
    {
        Five([0, 0, 0, 0, 0])
    }
}

impl From<[CKCNumber; 5]> for Five {
    fn from(array: [CKCNumber; 5]) -> (r: Self) {
        Five(array)
    }
}

impl vstd::std_specs::convert::FromSpecImpl<[CKCNumber; 5]> for Five {
    open spec fn obeys_from_spec() -> bool {
        true
    }

    open spec fn from_spec(array: [CKCNumber; 5]) -> Five {
        Five(array)
    }
}

impl HandValidator for Five {
    fn are_unique(&self) -> (r: bool) {
        let c = self.0;
        let r = c[0] != c[1] && c[0] != c[2] && c[0] != c[3] && c[0] != c[4] && c[1] != c[2]
            && c[1] != c[3] && c[1] != c[4] && c[2] != c[3] && c[2] != c[4] && c[3] != c[4];
        proof {
            assert(self@ =~= seq![c@[0], c@[1], c@[2], c@[3], c@[4]]);
        }
        r
    }

    fn first(&self) -> (r: CKCNumber) {
        self.0[0]
    }

    fn sort(&self) -> (r: Five) {
        let mut array = *self;
        array.sort_in_place();
        array
    }

    /// A fixed nine-exchange sorting network for five cards; each
    /// exchange swaps two slots, so neither the card multiset nor the
    /// bitwise aggregates the evaluator reads can change.
    #[verifier::rlimit(50)]
    fn sort_in_place(&mut self) {
        let mut v0 = self.0[0];
        let mut v1 = self.0[1];
        let mut v2 = self.0[2];
        let mut v3 = self.0[3];
        let mut v4 = self.0[4];
        proof {
            assert(old(self)@ =~= seq![v0, v1, v2, v3, v4]);
        }
        let (a, b) = exchange(v0, v1);
        proof {
            lemma_exchange_0_1(v0, v1, v2, v3, v4, a, b);
        }
        v0 = a;
        v1 = b;
        let (a, b) = exchange(v3, v4);
        proof {
            lemma_exchange_3_4(v0, v1, v2, v3, v4, a, b);
        }
        v3 = a;
        v4 = b;
        let (a, b) = exchange(v2, v4);
        proof {
            lemma_exchange_2_4(v0, v1, v2, v3, v4, a, b);
        }
        v2 = a;
        v4 = b;
        let (a, b) = exchange(v2, v3);
        proof {
            lemma_exchange_2_3(v0, v1, v2, v3, v4, a, b);
        }
        v2 = a;
        v3 = b;
        let (a, b) = exchange(v1, v4);
        proof {
            lemma_exchange_1_4(v0, v1, v2, v3, v4, a, b);
        }
        v1 = a;
        v4 = b;
        let (a, b) = exchange(v0, v3);
        proof {
            lemma_exchange_0_3(v0, v1, v2, v3, v4, a, b);
        }
        v0 = a;
        v3 = b;
        let (a, b) = exchange(v0, v2);
        proof {
            lemma_exchange_0_2(v0, v1, v2, v3, v4, a, b);
        }
        v0 = a;
        v2 = b;
        let (a, b) = exchange(v1, v3);
        proof {
            lemma_exchange_1_3(v0, v1, v2, v3, v4, a, b);
        }
        v1 = a;
        v3 = b;
        let (a, b) = exchange(v1, v2);
        proof {
            lemma_exchange_1_2(v0, v1, v2, v3, v4, a, b);
        }
        v1 = a;
        v2 = b;
        self.0 = [v0, v1, v2, v3, v4];
        proof {
            assert(final(self)@ =~= seq![v0, v1, v2, v3, v4]);
        }
    }

    fn contain_blank(&self) -> (r: bool) {
        let c = self.0;
        let r = c[0] == 0 || c[1] == 0 || c[2] == 0 || c[3] == 0 || c[4] == 0;
        proof {
            assert(self@ =~= seq![c@[0], c@[1], c@[2], c@[3], c@[4]]);
        }
        r
    }

    fn is_corrupt(&self) -> (r: bool) {
        let c = self.0;
        let r = CardNumber::filter(c[0]) == 0 || CardNumber::filter(c[1]) == 0
            || CardNumber::filter(c[2]) == 0 || CardNumber::filter(c[3]) == 0
            || CardNumber::filter(c[4]) == 0;
        proof {
            assert(self@ =~= seq![c@[0], c@[1], c@[2], c@[3], c@[4]]);
        }
        r
    }

    fn is_valid(&self) -> (r: bool) {
        self.are_unique() && !self.is_corrupt()
    }
}


/// Law (one leg of the range property): whatever prime product the paired
/// step is asked about, the value it hands back sits inside the paired
/// bands, 11 through 6185.
pub proof fn lemma_paired_result_band(p: int, r: HandRankValue)
    requires
        spec_paired_post(p, r),
    ensures
        11 <= r <= 6185,
{
    if exists|v: u16| #[trigger] entry_ok(p as u32, v) {
        let v = choose|v: u16| #[trigger] entry_ok(p as u32, v) && r == v;
        crate::lookups::lemma_entry_value_bands(p as u32, v);
    } else {
        let (p0, v0) = choose|p0: u32, v0: u16|
            #[trigger] entry_ok(p0, v0) && r == v0 && (forall|q: u32, w: u16|
                #[trigger] entry_ok(q, w) ==> p0 <= q);
        crate::lookups::lemma_entry_value_bands(p0, v0);
    }
}


/// Law (the range property): a valid hand of five pairwise-distinct legal
/// cards always evaluates into the real ranking range, 1 for the royal
/// flush through 7462 for the worst high card; only corrupt or repeated
/// cards produce the sentinel 0.
pub proof fn lemma_valid_eval_in_range(s: Seq<CKCNumber>, r: HandRankValue)
    requires
        s.len() == 5,
        spec_hand_valid(s),
        spec_eval_post(s, r),
    ensures
        1 <= r <= 7462,
{
    assert forall|i: int| 0 <= i < s.len() implies is_legal_card(#[trigger] s[i]) by {
        assert(!crate::cards::spec_is_corrupt(s));
    }
    let q = spec_or_rank_bits(s) as int;
    if spec_is_flush(s) {
        crate::lookups::lemma_valid_flush_is_pattern(s);
        if spec_straight_value(q) == 0 {
            crate::lookups::lemma_rank_position_max(q);
        }
    } else if spec_unique_entry(q) != 0 {
        if is_five_rank_pattern(q) && spec_straight_value(q) == 0 {
            crate::lookups::lemma_rank_position_max(q);
        }
    } else {
        lemma_paired_result_band(spec_prime_product(s), r);
    }
}


/// Law (the high-card fixture, in general form): a valid hand of five
/// distinct ranks that is neither a flush nor a straight evaluates into
/// the high-card band, 6186 through 7462.
pub proof fn lemma_high_card_band(s: Seq<CKCNumber>, r: HandRankValue)
    requires
        s.len() == 5,
        spec_hand_valid(s),
        forall|i: int, j: int|
            0 <= i < j < 5 ==> (#[trigger] s[i]) & 0x1FFF0000 != (#[trigger] s[j]) & 0x1FFF0000,
        !spec_is_flush(s),
        spec_straight_value(spec_or_rank_bits(s) as int) == 0,
        spec_eval_post(s, r),
    ensures
        6186 <= r <= 7462,
{
    assert forall|i: int| 0 <= i < s.len() implies is_legal_card(#[trigger] s[i]) by {
        assert(!crate::cards::spec_is_corrupt(s));
    }
    crate::lookups::lemma_distinct_ranks_is_pattern(s);
    let q = spec_or_rank_bits(s) as int;
    crate::lookups::lemma_rank_position_max(q);
}

} // verus!
