use vstd::prelude::*;

use crate::cards::five::{spec_all_legal, spec_and5, spec_or5, spec_prime_product, Five};
use crate::hand_rank::{spec_hand_rank_from, HandRank, HandRankValue};
use crate::{is_legal_card, CKCNumber};

pub mod binary_card;
pub mod five;
pub mod four;
pub mod seven;
pub mod six;
pub mod three;
pub mod two;

verus! {

/// No card appears twice in the hand.
pub open spec fn spec_all_unique(s: Seq<CKCNumber>) -> bool {
    forall|i: int, j: int| 0 <= i < j < s.len() ==> s[i] != s[j]
}

/// Some slot of the hand holds the blank card.
pub open spec fn spec_contains_blank(s: Seq<CKCNumber>) -> bool {
    exists|i: int| 0 <= i < s.len() && s[i] == 0
}

/// Some slot of the hand holds a value that is not a legal packed card;
/// the blank card counts as corrupt too.
pub open spec fn spec_is_corrupt(s: Seq<CKCNumber>) -> bool {
    exists|i: int| 0 <= i < s.len() && !is_legal_card(s[i])
}

/// A hand that can be ranked: every card legal and no card repeated.
pub open spec fn spec_hand_valid(s: Seq<CKCNumber>) -> bool {
    spec_all_unique(s) && !spec_is_corrupt(s)
}

/// Cards in descending packed order.
pub open spec fn spec_sorted_desc(s: Seq<CKCNumber>) -> bool {
    forall|i: int, j: int| 0 <= i < j < s.len() ==> s[i] >= s[j]
}

/// The validity checks every fixed-size hand offers. A hand views as the
/// sequence of its packed cards.
pub trait HandValidator: Sized + View<V = Seq<CKCNumber>> {
    fn are_unique(&self) -> (r: bool)
        ensures
            r == spec_all_unique(self@),
    ;

    fn first(&self) -> (r: CKCNumber)
        ensures
            self@.len() > 0 ==> r == self@[0],
    ;

    /// The same cards in descending packed order. Reordering five cards
    /// never changes the OR, AND or prime product the evaluator reads.
    fn sort(&self) -> (r: Self)
        ensures
            spec_sorted_desc(r@),
            r@.to_multiset() == self@.to_multiset(),
            r@.len() == self@.len(),
            self@.len() == 5 ==> spec_or5(r@) == spec_or5(self@) && spec_and5(r@) == spec_and5(
                self@,
            ) && spec_prime_product(r@) == spec_prime_product(self@),
    ;

    fn sort_in_place(&mut self)
        ensures
            spec_sorted_desc(final(self)@),
            final(self)@.to_multiset() == old(self)@.to_multiset(),
            final(self)@.len() == old(self)@.len(),
            old(self)@.len() == 5 ==> spec_or5(final(self)@) == spec_or5(old(self)@)
                && spec_and5(final(self)@) == spec_and5(old(self)@) && spec_prime_product(
                final(self)@,
            ) == spec_prime_product(old(self)@),
    ;

    fn contain_blank(&self) -> (r: bool)
        ensures
            r == spec_contains_blank(self@),
    ;

    /// A corrupt hand holds a value that matches no recognized card.
    fn is_corrupt(&self) -> (r: bool)
        ensures
            r == spec_is_corrupt(self@),
    ;

    fn is_valid(&self) -> (r: bool)
        ensures
            r == spec_hand_valid(self@),
    ;
}

/// Ranking a hand of more than five cards: every five-card subset is
/// evaluated and the best (numerically lowest nonzero) result wins. Each
/// implementor states through `spec_rank_post` what may come back.
pub trait HandRanker: Sized + View<V = Seq<CKCNumber>> {
    /// What the best-of-subsets value of this hand may be.
    spec fn spec_rank_post(&self, v: HandRankValue) -> bool;

    /// What the reported best five-card hand may be, beside the value.
    spec fn spec_hand_post(&self, v: HandRankValue, h: Five) -> bool;

    fn hand_rank_value_and_hand(&self) -> (r: (HandRankValue, Five))
        requires
            spec_all_legal(self@),
        ensures
            self.spec_rank_post(r.0),
            self.spec_hand_post(r.0, r.1),
    ;

    fn hand_rank_value(&self) -> (r: HandRankValue)
        requires
            spec_all_legal(self@),
        ensures
            self.spec_rank_post(r),
    ;

    /// Checks the hand first: a corrupt or repeated card makes the whole
    /// hand unrankable.
    fn hand_rank_value_validated(&self) -> (r: HandRankValue)
        ensures
            !spec_hand_valid(self@) ==> r == 0,
            spec_hand_valid(self@) ==> self.spec_rank_post(r),
    ;

    fn hand_rank(&self) -> (r: HandRank)
        requires
            spec_all_legal(self@),
        ensures
            r == spec_hand_rank_from(r.value),
            self.spec_rank_post(r.value),
    ;

    fn hand_rank_validated(&self) -> (r: HandRank)
        ensures
            r == spec_hand_rank_from(r.value),
            !spec_hand_valid(self@) ==> r.value == 0,
            spec_hand_valid(self@) ==> self.spec_rank_post(r.value),
    ;
}

/// Picks five cards of a larger hand by a fixed index permutation.
pub trait Permutator: Sized + View<V = Seq<CKCNumber>> {
    fn five_from_permutation(&self, permutation: [u8; 5]) -> (r: Five)
        requires
            forall|i: int| 0 <= i < 5 ==> (#[trigger] permutation@[i]) < self@.len(),
        ensures
            r@ =~= Seq::new(5, |i: int| self@[permutation@[i] as int]),
    ;
}


/// Law: a hand that holds the same card twice is invalid no matter which
/// two slots the twins occupy, so every validated ranking entry point
/// returns the unrankable value 0 for it.
pub proof fn lemma_duplicate_card_invalid(s: Seq<CKCNumber>, i: int, j: int)
    requires
        0 <= i < j < s.len(),
        s[i] == s[j],
    ensures
        !spec_hand_valid(s),
{
}

/// How the best-of-subsets search reduces a run of subset values: the
/// first value is accepted unconditionally, and afterwards only a nonzero
/// value that is strictly lower replaces the best seen so far.
pub open spec fn spec_best_value(vs: Seq<HandRankValue>) -> HandRankValue
    decreases vs.len(),
{
    if vs.len() == 0 {
        0
    } else {
        let prev = spec_best_value(vs.drop_last());
        let h = vs.last();
        if prev == 0 || (h != 0 && h < prev) {
            h
        } else {
            prev
        }
    }
}

/// Law: the reduction above picks exactly the minimum nonzero value of
/// the run, and 0 only when every value is 0.
pub proof fn lemma_best_value_is_min_nonzero(vs: Seq<HandRankValue>)
    ensures
        spec_best_value(vs) == 0 ==> forall|k: int| 0 <= k < vs.len() ==> vs[k] == 0,
        spec_best_value(vs) != 0 ==> exists|k: int|
            0 <= k < vs.len() && vs[k] == spec_best_value(vs),
        forall|k: int|
            0 <= k < vs.len() && vs[k] != 0 ==> spec_best_value(vs) != 0 && spec_best_value(vs)
                <= vs[k],
    decreases vs.len(),
{
    if vs.len() > 0 {
        lemma_best_value_is_min_nonzero(vs.drop_last());
        assert forall|k: int| 0 <= k < vs.len() && vs[k] != 0 implies spec_best_value(vs) != 0
            && spec_best_value(vs) <= vs[k] by {
            if k < vs.len() - 1 {
                assert(vs.drop_last()[k] == vs[k]);
            }
        }
        if spec_best_value(vs) != 0 {
            if spec_best_value(vs) == vs.last() {
            } else {
                let k = choose|k: int|
                    0 <= k < vs.len() - 1 && vs.drop_last()[k] == spec_best_value(vs);
                assert(vs[k] == spec_best_value(vs));
            }
        }
        if spec_best_value(vs) == 0 {
            assert forall|k: int| 0 <= k < vs.len() implies vs[k] == 0 by {
                if k < vs.len() - 1 {
                    assert(vs.drop_last()[k] == vs[k]);
                }
            }
        }
    }
}

/// Two hands made of the same cards are both duplicate-free or both not.
pub proof fn lemma_unique_via_multiset(a: Seq<CKCNumber>, b: Seq<CKCNumber>)
    requires
        a.to_multiset() == b.to_multiset(),
    ensures
        spec_all_unique(a) <==> spec_all_unique(b),
{
    broadcast use vstd::seq_lib::group_to_multiset_ensures;

    if spec_all_unique(a) {
        a.lemma_multiset_has_no_duplicates();
        b.lemma_multiset_has_no_duplicates_conv();
    }
    if spec_all_unique(b) {
        b.lemma_multiset_has_no_duplicates();
        a.lemma_multiset_has_no_duplicates_conv();
    }
}

/// In a descending run of cards, strict descent between neighbours is the
/// same as having no card twice.
pub proof fn lemma_sorted_unique_adjacent(s: Seq<CKCNumber>)
    requires
        spec_sorted_desc(s),
    ensures
        spec_all_unique(s) <==> (forall|i: int| 0 <= i < s.len() - 1 ==> s[i] > #[trigger] s[i
            + 1]),
{
    if forall|i: int| 0 <= i < s.len() - 1 ==> s[i] > #[trigger] s[i + 1] {
        assert forall|i: int, j: int| 0 <= i < j < s.len() implies s[i] != s[j] by {
            assert(s[i] > s[i + 1]);
            assert(s[i + 1] >= s[j]);
        }
    }
}

/// The position of a largest card of the run.
fn max_index(v: &Vec<CKCNumber>) -> (r: usize)
    requires
        v@.len() > 0,
    ensures
        r < v@.len(),
        forall|i: int| 0 <= i < v@.len() ==> v@[i] <= v@[r as int],
{
    let mut best: usize = 0;
    let mut i: usize = 1;
    while i < v.len()
        invariant
            best < i <= v@.len(),
            forall|k: int| 0 <= k < i ==> v@[k] <= v@[best as int],
        decreases v@.len() - i,
    {
        if v[i] > v[best] {
            best = i;
        }
        i = i + 1;
    }
    best
}

/// Sorts a run of cards into descending order by repeatedly extracting a
/// largest remaining card.
pub(crate) fn sort_desc_vec(input: Vec<CKCNumber>) -> (r: Vec<CKCNumber>)
    ensures
        r@.len() == input@.len(),
        r@.to_multiset() == input@.to_multiset(),
        spec_sorted_desc(r@),
{
    broadcast use vstd::seq_lib::group_to_multiset_ensures;
    broadcast use vstd::multiset::group_multiset_axioms;

    let mut rest = input;
    let mut out: Vec<CKCNumber> = Vec::new();
    while rest.len() > 0
        invariant
            out@.len() + rest@.len() == input@.len(),
            out@.to_multiset().add(rest@.to_multiset()) == input@.to_multiset(),
            spec_sorted_desc(out@),
            forall|i: int, j: int|
                0 <= i < out@.len() && 0 <= j < rest@.len() ==> out@[i] >= rest@[j],
        decreases rest@.len(),
    {
        let mi = max_index(&rest);
        let ghost pre_rest = rest@;
        let x = rest.remove(mi);
        let ghost old_rest = rest@.insert(mi as int, x);
        proof {
            assert(rest@ =~= old_rest.remove(mi as int));
            old_rest.to_multiset_ensures();
            out@.to_multiset_ensures();
            assert(old_rest.remove(mi as int).to_multiset() =~= old_rest.to_multiset().remove(
                old_rest[mi as int],
            ));
            assert(out@.push(x).to_multiset() =~= out@.to_multiset().insert(x));
            assert(old_rest =~= pre_rest);
            assert(pre_rest.to_multiset().contains(x));
            assert(out@.push(x).to_multiset().add(rest@.to_multiset()) =~= out@.to_multiset().add(
                pre_rest.to_multiset(),
            ));
        }
        out.push(x);
    }
    out
}

} // verus!
