use vstd::prelude::*;

use crate::cards::five::{
    spec_all_legal, spec_and5, spec_eval_post, spec_or5, spec_prime_product, Five,
};
use crate::cards::three::Three;
use crate::cards::two::Two;
use crate::cards::{
    spec_best_value, spec_hand_valid, spec_sorted_desc, HandRanker, HandValidator, Permutator,
};
use crate::hand_rank::{HandRank, HandRankValue, NO_HAND_RANK_VALUE};
use crate::parse::spec_cards_from;
use crate::{CKCNumber, CardNumber, HandError};

verus! {

/// A hand of six cards, ranked by the best five-card hand it holds.
#[derive(Clone, Copy, Debug, Hash)]
pub struct Six(pub [CKCNumber; 6]);

/// The five cards of the hand that the permutation at position `k` of
/// the table picks.
pub open spec fn spec_subset6(s: Seq<CKCNumber>, k: int) -> Seq<CKCNumber> {
    if k == 0 { seq![s[0], s[1], s[2], s[3], s[4]] } else 
    if k == 1 { seq![s[0], s[1], s[2], s[3], s[5]] } else 
    if k == 2 { seq![s[0], s[1], s[2], s[4], s[5]] } else 
    if k == 3 { seq![s[0], s[1], s[3], s[4], s[5]] } else 
    if k == 4 { seq![s[0], s[2], s[3], s[4], s[5]] } else 
    { seq![s[1], s[2], s[3], s[4], s[5]] }
}

/// What ranking a six-card hand may return: one five-card evaluation
/// per subset, reduced to the best value.
pub open spec fn spec_six_rank_post(s: Seq<CKCNumber>, v: HandRankValue) -> bool {
    exists|vs: Seq<HandRankValue>|
        #[trigger] vs.len() == 6 && (forall|m: int|
            0 <= m < 6 ==> spec_eval_post(spec_subset6(s, m), #[trigger] vs[m])) && v
            == spec_best_value(vs)
}

/// What the reported best five-card hand may be: when some subset ranks,
/// the returned hand holds exactly the cards of a winning subset, sorted,
/// so two equal-valued best hands compare equal structurally; when every
/// subset is unrankable, the last subset tried comes back.
pub open spec fn spec_six_hand_post(s: Seq<CKCNumber>, v: HandRankValue, h: Five) -> bool {
    spec_sorted_desc(h@) && if v == 0 {
        h@.to_multiset() == spec_subset6(s, 5).to_multiset()
    } else {
        exists|m: int|
            0 <= m < 6 && h@.to_multiset() == (#[trigger] spec_subset6(
                s,
                m,
            )).to_multiset() && spec_or5(h@) == spec_or5(spec_subset6(s, m)) && spec_and5(h@)
                == spec_and5(spec_subset6(s, m)) && spec_prime_product(h@)
                == spec_prime_product(spec_subset6(s, m)) && spec_eval_post(
                spec_subset6(s, m),
                v,
            )
    }
}

impl Six {
    /// The index permutations that pick each five-card subset of the
    /// hand.
    pub const FIVE_CARD_PERMUTATIONS: [[u8; 5]; 6] = [
        [0, 1, 2, 3, 4],
        [0, 1, 2, 3, 5],
        [0, 1, 2, 4, 5],
        [0, 1, 3, 4, 5],
        [0, 2, 3, 4, 5],
        [1, 2, 3, 4, 5],
    ];

    proof fn lemma_permutations_valid()
        ensures
            forall|k: int, i: int|
                0 <= k < 6 && 0 <= i < 5 ==> (Six::FIVE_CARD_PERMUTATIONS@[k]@[i] as int)
                    < 6,
    {
        assert(Six::FIVE_CARD_PERMUTATIONS@[0]@ =~= seq![0u8, 1u8, 2u8, 3u8, 4u8]);
        assert(Six::FIVE_CARD_PERMUTATIONS@[1]@ =~= seq![0u8, 1u8, 2u8, 3u8, 5u8]);
        assert(Six::FIVE_CARD_PERMUTATIONS@[2]@ =~= seq![0u8, 1u8, 2u8, 4u8, 5u8]);
        assert(Six::FIVE_CARD_PERMUTATIONS@[3]@ =~= seq![0u8, 1u8, 3u8, 4u8, 5u8]);
        assert(Six::FIVE_CARD_PERMUTATIONS@[4]@ =~= seq![0u8, 2u8, 3u8, 4u8, 5u8]);
        assert(Six::FIVE_CARD_PERMUTATIONS@[5]@ =~= seq![1u8, 2u8, 3u8, 4u8, 5u8]);
    }

    /// Splices a single card, a two-card hand and a three-card hand into
    /// one six-card hand.
    pub fn from_1_and_2_and_3(one: CKCNumber, two: Two, three: Three) -> (r: Self)
        ensures
            r@ =~= seq![one, two@[0], two@[1], three@[0], three@[1], three@[2]],
    {
        Self(
            [
                one,
                two.first(),
                two.second(),
                three.first(),
                three.second(),
                three.third(),
            ],
        )
    }

    //region accessors

    pub fn second(&self) -> (r: CKCNumber)
        ensures
            r == self@[1],
    {
        self.0[1]
    }
    pub fn third(&self) -> (r: CKCNumber)
        ensures
            r == self@[2],
    {
        self.0[2]
    }
    pub fn forth(&self) -> (r: CKCNumber)
        ensures
            r == self@[3],
    {
        self.0[3]
    }
    pub fn fifth(&self) -> (r: CKCNumber)
        ensures
            r == self@[4],
    {
        self.0[4]
    }
    pub fn sixth(&self) -> (r: CKCNumber)
        ensures
            r == self@[5],
    {
        self.0[5]
    }

    pub fn set_first(&mut self, card_number: CKCNumber)
        ensures
            final(self)@ =~= old(self)@.update(0, card_number),
    {
        self.0[0] = card_number;
    }
    pub fn set_second(&mut self, card_number: CKCNumber)
        ensures
            final(self)@ =~= old(self)@.update(1, card_number),
    {
        self.0[1] = card_number;
    }
    pub fn set_third(&mut self, card_number: CKCNumber)
        ensures
            final(self)@ =~= old(self)@.update(2, card_number),
    {
        self.0[2] = card_number;
    }
    pub fn set_forth(&mut self, card_number: CKCNumber)
        ensures
            final(self)@ =~= old(self)@.update(3, card_number),
    {
        self.0[3] = card_number;
    }
    pub fn set_fifth(&mut self, card_number: CKCNumber)
        ensures
            final(self)@ =~= old(self)@.update(4, card_number),
    {
        self.0[4] = card_number;
    }
    pub fn set_sixth(&mut self, card_number: CKCNumber)
        ensures
            final(self)@ =~= old(self)@.update(5, card_number),
    {
        self.0[5] = card_number;
    }

    pub fn to_arr(&self) -> (r: [CKCNumber; 6])
        ensures
            r@ =~= self@,
    {
        self.0
    }

    //endregion

    /// Builds a hand from six whitespace-separated card indexes.
    pub fn try_from(index: &str) -> (r: Result<Six, HandError>)
        ensures
            ({
                match spec_cards_from(index@, 0, 6) {
                    Some(cards) => r matches Ok(hand) && hand@ =~= cards,
                    None => r matches Err(e) && e == HandError::InvalidIndex,
                }
            }),
    {
        match crate::parse::cards_from_index(index, 6) {
            None => Err(HandError::InvalidIndex),
            Some(cards) => Ok(Six([cards[0], cards[1], cards[2], cards[3], cards[4], cards[5]])),
        }
    }
}

impl View for Six {
    type V = Seq<CKCNumber>;

    open spec fn view(&self) -> Seq<CKCNumber> {
        self.0@
    }
}

impl PartialEq for Six {
    /// Two hands are equal when they hold the same cards in the same
    /// order.
    fn eq(&self, other: &Six) -> (r: bool) {
        self.0[0] == other.0[0] && self.0[1] == other.0[1] && self.0[2] == other.0[2] && self.0[3] == other.0[3] && self.0[4] == other.0[4] && self.0[5] == other.0[5]
    }
}

impl Eq for Six {

}

impl vstd::std_specs::cmp::PartialEqSpecImpl for Six {
    open spec fn obeys_eq_spec() -> bool {
        true
    }

    open spec fn eq_spec(&self, other: &Six) -> bool {
        self@ =~= other@
    }
}

impl Default for Six {
    /// The default hand holds only blank cards.
    fn default() -> (r: Six)
        ensures
            r@ =~= seq![0u32, 0u32, 0u32, 0u32, 0u32, 0u32],
    {
        Six([0, 0, 0, 0, 0, 0])
    }
}

impl From<[CKCNumber; 6]> for Six {
    fn from(array: [CKCNumber; 6]) -> (r: Self) {
        Six(array)
    }
}

impl vstd::std_specs::convert::FromSpecImpl<[CKCNumber; 6]> for Six {
    open spec fn obeys_from_spec() -> bool {
        true
    }

    open spec fn from_spec(array: [CKCNumber; 6]) -> Six {
        Six(array)
    }
}

impl HandRanker for Six {
    open spec fn spec_rank_post(&self, v: HandRankValue) -> bool {
        spec_six_rank_post(self@, v)
    }

    open spec fn spec_hand_post(&self, v: HandRankValue, h: Five) -> bool {
        spec_six_hand_post(self@, v, h)
    }

    /// Evaluates every five-card subset and keeps the lowest nonzero
    /// value together with the subset that produced it; the winning hand
    /// comes back sorted.
    fn hand_rank_value_and_hand(&self) -> (r: (HandRankValue, Five)) {
        proof {
            Six::lemma_permutations_valid();
        }
        let mut best_hrv: HandRankValue = 0u16;
        let mut best_hand = Five::default();
        let ghost mut vs: Seq<HandRankValue> = Seq::empty();
        let mut k: usize = 0;

        while k < 6
            invariant
                spec_all_legal(self@),
                k <= 6,
                vs.len() == k,
                forall|k2: int, i: int|
                    0 <= k2 < 6 && 0 <= i < 5 ==> (Six::FIVE_CARD_PERMUTATIONS@[k2]@[
                        i
                    ] as int) < 6,
                forall|m: int|
                    0 <= m < k ==> spec_eval_post(spec_subset6(self@, m), #[trigger] vs[m]),
                best_hrv == spec_best_value(vs),
                best_hrv != 0 ==> exists|m: int|
                    0 <= m < k && best_hand@ =~= (#[trigger] spec_subset6(self@, m))
                        && vs[m] == best_hrv,
                best_hrv == 0 && k == 0 ==> best_hand@ =~= seq![0u32, 0u32, 0u32, 0u32, 0u32],
                best_hrv == 0 && k > 0 ==> best_hand@ =~= spec_subset6(self@, k - 1),
            decreases 6 - k,
        {
            let hand = self.five_from_permutation(Six::FIVE_CARD_PERMUTATIONS[k]);
            proof {
                assert(hand@ =~= spec_subset6(self@, k as int));
            }
            let hrv = hand.hand_rank_value();
            proof {
                let pushed = vs.push(hrv);
                assert(pushed.drop_last() =~= vs);
            }
            if (best_hrv == 0) || (hrv != 0 && hrv < best_hrv) {
                best_hrv = hrv;
                best_hand = hand;
            }
            proof {
                vs = vs.push(hrv);
            }
            k = k + 1;
        }

        let sorted = best_hand.sort();
        proof {
            if best_hrv == 0 {
                assert(sorted@.to_multiset() == best_hand@.to_multiset());
            }
            assert(spec_six_rank_post(self@, best_hrv));
        }
        (best_hrv, sorted)
    }

    fn hand_rank_value(&self) -> (r: HandRankValue) {
        let (hrv, _) = self.hand_rank_value_and_hand();
        hrv
    }

    fn hand_rank_value_validated(&self) -> (r: HandRankValue) {
        if !self.is_valid() {
            return NO_HAND_RANK_VALUE;
        }
        self.hand_rank_value()
    }

    fn hand_rank(&self) -> (r: HandRank) {
        HandRank::from(self.hand_rank_value())
    }

    fn hand_rank_validated(&self) -> (r: HandRank) {
        HandRank::from(self.hand_rank_value_validated())
    }
}

impl HandValidator for Six {
    /// Sorts the hand and looks for equal neighbours: in a descending
    /// run, a repeated card must sit next to its twin.
    fn are_unique(&self) -> (r: bool) {
        let s = self.sort();
        let r = s.0[0] > s.0[1] && s.0[1] > s.0[2] && s.0[2] > s.0[3] && s.0[3] > s.0[4] && s.0[4] > s.0[5];
        proof {
            crate::cards::lemma_unique_via_multiset(self@, s@);
            crate::cards::lemma_sorted_unique_adjacent(s@);
            assert(s@ =~= seq![s.0@[0], s.0@[1], s.0@[2], s.0@[3], s.0@[4], s.0@[5]]);
        }
        r
    }

    fn first(&self) -> (r: CKCNumber) {
        self.0[0]
    }

    fn sort(&self) -> (r: Six) {
        let mut array = *self;
        array.sort_in_place();
        array
    }

    fn sort_in_place(&mut self) {
        let mut v: Vec<CKCNumber> = Vec::new();
        v.push(self.0[0]);
        v.push(self.0[1]);
        v.push(self.0[2]);
        v.push(self.0[3]);
        v.push(self.0[4]);
        v.push(self.0[5]);
        proof {
            assert(v@ =~= old(self)@);
        }
        let sorted_vec = crate::cards::sort_desc_vec(v);
        self.0 = [sorted_vec[0], sorted_vec[1], sorted_vec[2], sorted_vec[3], sorted_vec[4], sorted_vec[5]];
        proof {
            assert(final(self)@ =~= sorted_vec@);
        }
    }

    fn contain_blank(&self) -> (r: bool) {
        let c = self.0;
        let r = c[0] == 0 || c[1] == 0 || c[2] == 0 || c[3] == 0 || c[4] == 0 || c[5] == 0;
        proof {
            assert(self@ =~= seq![c@[0], c@[1], c@[2], c@[3], c@[4], c@[5]]);
        }
        r
    }

    fn is_corrupt(&self) -> (r: bool) {
        let c = self.0;
        let r = CardNumber::filter(c[0]) == 0 || CardNumber::filter(c[1]) == 0 || CardNumber::filter(c[2]) == 0 || CardNumber::filter(c[3]) == 0 || CardNumber::filter(c[4]) == 0 || CardNumber::filter(c[5]) == 0;
        proof {
            assert(self@ =~= seq![c@[0], c@[1], c@[2], c@[3], c@[4], c@[5]]);
        }
        r
    }

    fn is_valid(&self) -> (r: bool) {
        self.are_unique() && !self.is_corrupt()
    }
}

impl Permutator for Six {
    fn five_from_permutation(&self, permutation: [u8; 5]) -> (r: Five) {
        let r = Five::new(
            self.0[permutation[0] as usize],
            self.0[permutation[1] as usize],
            self.0[permutation[2] as usize],
            self.0[permutation[3] as usize],
            self.0[permutation[4] as usize],
        );
        proof {
            assert(r@ =~= Seq::new(5, |i: int| self@[permutation@[i] as int]));
        }
        r
    }
}


/// Law (the range property, lifted): a valid six-card hand of
/// pairwise-distinct legal cards always reports a best value inside the
/// real ranking range, 1 through 7462.
#[verifier::rlimit(100)]
pub proof fn lemma_valid_six_in_range(s: Seq<CKCNumber>, v: HandRankValue)
    requires
        s.len() == 6,
        spec_hand_valid(s),
        spec_six_rank_post(s, v),
    ensures
        1 <= v <= 7462,
{
    let vs = choose|vs: Seq<HandRankValue>|
        #[trigger] vs.len() == 6 && (forall|m: int|
            0 <= m < 6 ==> spec_eval_post(spec_subset6(s, m), #[trigger] vs[m])) && v
            == spec_best_value(vs);
    assert forall|m: int| 0 <= m < 6 implies 1 <= #[trigger] vs[m] <= 7462 by {
        let sub = spec_subset6(s, m);
        assert forall|i: int| 0 <= i < sub.len() implies crate::is_legal_card(
            #[trigger] sub[i],
        ) by {
            assert(!crate::cards::spec_is_corrupt(s));
        }
        assert(crate::cards::spec_all_unique(sub));
        assert(!crate::cards::spec_is_corrupt(sub));
        crate::cards::five::lemma_valid_eval_in_range(sub, vs[m]);
    }
    crate::cards::lemma_best_value_is_min_nonzero(vs);
    if spec_best_value(vs) == 0 {
        assert(vs[0] == 0);
    }
}

} // verus!
