use vstd::prelude::*;

use crate::cards::binary_card::{spec_peel_card, BinaryCard, BC64};
use crate::cards::HandValidator;
use crate::lookups::spec_popcount;
use crate::parse::spec_cards_from;
use crate::{
    spec_card_rank, spec_card_suit, spec_from_binary_card, spec_rank_face_value,
    spec_shift_suit, CKCNumber, CardNumber, CardRank, HandError, PokerCard, Shifty,
};

verus! {

/// A starting hand of two cards.
#[derive(Clone, Copy, Debug, Hash)]
#[verifier::ext_equal]
pub struct Two(pub [CKCNumber; 2]);

/// The stronger of the two cards: packed cards compare rank first.
pub open spec fn spec_high_card(s: Seq<CKCNumber>) -> CKCNumber {
    if s[0] >= s[1] {
        s[0]
    } else {
        s[1]
    }
}

/// The half-point value a card contributes to the starting-hand score:
/// ten for an ace, eight for a king, seven for a queen, six for a jack,
/// half its face value otherwise, each doubled so the arithmetic stays in
/// whole numbers.
pub open spec fn spec_chen_half_points(r: CardRank) -> int {
    match r {
        CardRank::ACE => 20,
        CardRank::KING => 16,
        CardRank::QUEEN => 14,
        CardRank::JACK => 12,
        CardRank::BLANK => 0,
        _ => spec_rank_face_value(r) as int,
    }
}

/// How many ranks sit strictly between the two cards: touching or equal
/// ranks count as no gap.
pub open spec fn spec_gap(s: Seq<CKCNumber>) -> int {
    let hi = spec_rank_face_value(spec_card_rank(spec_high_card(s)));
    let lo = spec_rank_face_value(spec_card_rank(spec_low_card(s)));
    if hi <= lo {
        0
    } else if hi - lo < 1 {
        0
    } else {
        hi - lo - 1
    }
}

/// The weaker of the two cards.
pub open spec fn spec_low_card(s: Seq<CKCNumber>) -> CKCNumber {
    if s[0] >= s[1] {
        s[1]
    } else {
        s[0]
    }
}

/// The starting-hand score in half points, before rounding: the high
/// card's value, doubled (but at least ten) for a pocket pair, less a
/// penalty per gap width, plus bonuses for a near-connected low hand and
/// for matching suits.
pub open spec fn spec_chen_score_half(s: Seq<CKCNumber>) -> int {
    let base = spec_chen_half_points(spec_card_rank(spec_high_card(s)));
    let paired = if spec_is_pocket_pair(s) {
        if base * 2 > 10 {
            base * 2
        } else {
            10
        }
    } else {
        let gap = spec_gap(s);
        let penalty: int = if gap == 1 {
            2
        } else if gap == 2 {
            4
        } else if gap == 3 {
            8
        } else if gap == 0 {
            0
        } else {
            10
        };
        let bonus: int = if gap < 2 && spec_rank_face_value(
            spec_card_rank(spec_high_card(s)),
        ) < 12 {
            2
        } else {
            0
        };
        base - penalty + bonus
    };
    paired + if spec_is_suited(s) {
        4int
    } else {
        0int
    }
}

/// The rounded starting-hand score: half the half-point score, rounded
/// up toward the stronger side.
pub open spec fn spec_chen_formula(s: Seq<CKCNumber>) -> int {
    let hp = spec_chen_score_half(s);
    if hp % 2 == 0 {
        hp / 2
    } else {
        hp / 2 + 1
    }
}

pub open spec fn spec_is_pocket_pair(s: Seq<CKCNumber>) -> bool {
    spec_card_rank(s[0]) == spec_card_rank(s[1])
}

pub open spec fn spec_is_suited(s: Seq<CKCNumber>) -> bool {
    spec_card_suit(s[0]) == spec_card_suit(s[1])
}

impl Two {
    pub fn new(first: CKCNumber, second: CKCNumber) -> (r: Self)
        ensures
            r@ =~= seq![first, second],
    {
        Two([first, second])
    }

    /// Two cards drawn from a two-card 52-bit set, in deck order.
    pub fn try_from_binary_card(binary_card: BinaryCard) -> (r: Result<Two, HandError>)
        ensures
            spec_popcount(binary_card as int) < 2 ==> (r matches Err(e) && e
                == HandError::NotEnoughCards),
            spec_popcount(binary_card as int) > 2 ==> (r matches Err(e) && e
                == HandError::TooManyCards),
            spec_popcount(binary_card as int) == 2 ==> ({
                let c1 = spec_from_binary_card(spec_peel_card(binary_card));
                let c2 = spec_from_binary_card(
                    spec_peel_card(binary_card & !spec_peel_card(binary_card)),
                );
                if c1 != 0 && c2 != 0 && c1 != c2 {
                    r matches Ok(two) && two@ =~= seq![c1, c2]
                } else {
                    r matches Err(e) && e == HandError::InvalidBinaryFormat
                }
            }),
    {
        let count = binary_card.number_of_cards();
        if count < 2 {
            Err(HandError::NotEnoughCards)
        } else if count > 2 {
            Err(HandError::TooManyCards)
        } else {
            let mut bc = binary_card;
            let first = CKCNumber::from_binary_card(bc.peel());
            let second = CKCNumber::from_binary_card(bc.peel());
            let two = Two::new(first, second);
            if two.is_valid() {
                Ok(two)
            } else {
                Err(HandError::InvalidBinaryFormat)
            }
        }
    }

    //region accessors

    pub fn second(&self) -> (r: CKCNumber)
        ensures
            r == self@[1],
    {
        self.0[1]
    }

    pub fn set_first(&mut self, card_number: CKCNumber)
        ensures
            final(self)@ =~= old(self)@.update(0, card_number),
    {
        self.0[0] = card_number;
    }

    pub fn set_second(&mut self, card_number: CKCNumber)
        ensures
            final(self)@ =~= old(self)@.update(1, card_number),
    {
        self.0[1] = card_number;
    }

    pub fn to_arr(&self) -> (r: [CKCNumber; 2])
        ensures
            r@ =~= self@,
    {
        self.0
    }

    //endregion

    /// Builds a hand from two whitespace-separated card indexes.
    pub fn try_from(index: &str) -> (r: Result<Two, HandError>)
        ensures
            ({
                match spec_cards_from(index@, 0, 2) {
                    Some(cards) => r matches Ok(hand) && hand@ =~= cards,
                    None => r matches Err(e) && e == HandError::InvalidIndex,
                }
            }),
    {
        match crate::parse::cards_from_index(index, 2) {
            None => Err(HandError::InvalidIndex),
            Some(cards) => Ok(Two([cards[0], cards[1]])),
        }
    }

    /// The starting-hand score of the two cards, rounded up.
    pub fn chen_formula(&self) -> (r: i8)
        ensures
            r as int == spec_chen_formula(self@),
    {
        let high_card = self.high_card();
        let rank = high_card.get_card_rank();
        let base: u32 = match rank {
            CardRank::ACE => 20,
            CardRank::KING => 16,
            CardRank::QUEEN => 14,
            CardRank::JACK => 12,
            CardRank::BLANK => 0,
            _ => rank.face_value(),
        };
        // the score is tracked shifted up by forty half points so the
        // gap penalty can never take it below zero
        let mut val: u32 = 40 + base;
        if self.is_pocket_pair() {
            let doubled = if base * 2 > 10 {
                base * 2
            } else {
                10
            };
            val = 40 + doubled;
        } else {
            let gap = self.get_gap();
            let penalty: u32 = if gap == 1 {
                2
            } else if gap == 2 {
                4
            } else if gap == 3 {
                8
            } else if gap == 0 {
                0
            } else {
                10
            };
            val = val - penalty;
            let top = rank.face_value();
            if gap < 2 && top < 12 {
                val = val + 2;
            }
        }
        if self.is_suited() {
            val = val + 4;
        }
        let half = ((val + 1) / 2) as i32;
        (half - 20) as i8
    }

    /// How many ranks sit strictly between the two cards.
    pub fn get_gap(&self) -> (r: u8)
        ensures
            r as int == spec_gap(self@),
    {
        let high = self.high_card();
        let low = if self.0[0] >= self.0[1] {
            self.0[1]
        } else {
            self.0[0]
        };
        let hi = high.get_card_rank().face_value();
        let lo = low.get_card_rank().face_value();
        if hi <= lo {
            0
        } else {
            let distance_between = hi - lo;
            if distance_between < 1 {
                0
            } else {
                (distance_between - 1) as u8
            }
        }
    }

    /// The stronger of the two cards.
    pub fn high_card(&self) -> (r: CKCNumber)
        ensures
            r == spec_high_card(self@),
    {
        if self.0[0] >= self.0[1] {
            self.0[0]
        } else {
            self.0[1]
        }
    }

    pub fn is_connector(&self) -> (r: bool)
        ensures
            r == (spec_gap(self@) == 0),
    {
        self.get_gap() == 0
    }

    pub fn is_pocket_pair(&self) -> (r: bool)
        ensures
            r == spec_is_pocket_pair(self@),
    {
        let a = self.0[0].get_card_rank();
        let b = self.0[1].get_card_rank();
        a == b
    }

    pub fn is_suited(&self) -> (r: bool)
        ensures
            r == spec_is_suited(self@),
    {
        let a = self.0[0].get_card_suit();
        let b = self.0[1].get_card_suit();
        a == b
    }

    pub fn is_suited_connector(&self) -> (r: bool)
        ensures
            r == (spec_is_suited(self@) && spec_gap(self@) == 0),
    {
        self.is_suited() && self.is_connector()
    }
}

impl View for Two {
    type V = Seq<CKCNumber>;

    open spec fn view(&self) -> Seq<CKCNumber> {
        self.0@
    }
}

impl PartialEq for Two {
    /// Two hands are equal when they hold the same cards in the same
    /// order.
    fn eq(&self, other: &Two) -> (r: bool) {
        self.0[0] == other.0[0] && self.0[1] == other.0[1]
    }
}

impl Eq for Two {

}

impl vstd::std_specs::cmp::PartialEqSpecImpl for Two {
    open spec fn obeys_eq_spec() -> bool {
        true
    }

    open spec fn eq_spec(&self, other: &Two) -> bool {
        self@ =~= other@
    }
}

impl Default for Two {
    /// The default hand holds only blank cards.
    fn default() -> (r: Two)
        ensures
            r@ =~= seq![0u32, 0u32],
    {
        Two([0, 0])
    }
}

impl From<[CKCNumber; 2]> for Two {
    fn from(array: [CKCNumber; 2]) -> (r: Self) {
        Two(array)
    }
}

impl vstd::std_specs::convert::FromSpecImpl<[CKCNumber; 2]> for Two {
    open spec fn obeys_from_spec() -> bool {
        true
    }

    open spec fn from_spec(array: [CKCNumber; 2]) -> Two {
        Two(array)
    }
}

impl HandValidator for Two {
    fn are_unique(&self) -> (r: bool) {
        let r = self.0[0] != self.0[1];
        proof {
            assert(self@ =~= seq![self.0@[0], self.0@[1]]);
        }
        r
    }

    fn first(&self) -> (r: CKCNumber) {
        self.0[0]
    }

    fn sort(&self) -> (r: Two) {
        let mut array = *self;
        array.sort_in_place();
        array
    }

    fn sort_in_place(&mut self) {
        proof {
            assert(old(self)@ =~= seq![self.0@[0], self.0@[1]]);
        }
        if self.0[0] < self.0[1] {
            let t = self.0[0];
            let u = self.0[1];
            self.0 = [u, t];
            proof {
                assert(final(self)@ =~= seq![u, t]);
                crate::cards::five::lemma_two_swap_multiset(t, u);
            }
        } else {
            proof {
                assert(final(self)@ =~= old(self)@);
            }
        }
    }

    fn contain_blank(&self) -> (r: bool) {
        let r = self.0[0] == 0 || self.0[1] == 0;
        proof {
            assert(self@ =~= seq![self.0@[0], self.0@[1]]);
        }
        r
    }

    fn is_corrupt(&self) -> (r: bool) {
        let r = CardNumber::filter(self.0[0]) == 0 || CardNumber::filter(self.0[1]) == 0;
        proof {
            assert(self@ =~= seq![self.0@[0], self.0@[1]]);
        }
        r
    }

    fn is_valid(&self) -> (r: bool) {
        self.are_unique() && !self.is_corrupt()
    }
}

impl Shifty for Two {
    open spec fn spec_shifted(&self) -> Two {
        Two([spec_shift_suit(self@[0]), spec_shift_suit(self@[1])])
    }

    fn shift_suit(&self) -> (r: Self) {
        let r = Two::new(self.0[0].shift_suit(), self.0[1].shift_suit());
        proof {
            assert(r.0@ =~= self.spec_shifted().0@);
            assert(r =~= self.spec_shifted());
        }
        r
    }
}

} // verus!
