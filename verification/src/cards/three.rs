use vstd::prelude::*;

use crate::cards::HandValidator;
use crate::parse::spec_cards_from;
use crate::{CKCNumber, CardNumber, HandError};

verus! {

/// A hand of three cards.
#[derive(Clone, Copy, Debug, Hash)]
pub struct Three(pub [CKCNumber; 3]);

impl View for Three {
    type V = Seq<CKCNumber>;

    open spec fn view(&self) -> Seq<CKCNumber> {
        self.0@
    }
}

impl PartialEq for Three {
    /// Two hands are equal when they hold the same cards in the same
    /// order.
    fn eq(&self, other: &Three) -> (r: bool) {
        self.0[0] == other.0[0] && self.0[1] == other.0[1] && self.0[2] == other.0[2]
    }
}

impl Eq for Three {

}

impl vstd::std_specs::cmp::PartialEqSpecImpl for Three {
    open spec fn obeys_eq_spec() -> bool {
        true
    }

    open spec fn eq_spec(&self, other: &Three) -> bool {
        self@ =~= other@
    }
}

impl Default for Three {
    /// The default hand holds only blank cards.
    fn default() -> (r: Three)
        ensures
            r@ =~= seq![0u32, 0u32, 0u32],
    {
        Three([0, 0, 0])
    }
}

impl From<[CKCNumber; 3]> for Three {
    fn from(array: [CKCNumber; 3]) -> (r: Self) {
        Three(array)
    }
}

impl vstd::std_specs::convert::FromSpecImpl<[CKCNumber; 3]> for Three {
    open spec fn obeys_from_spec() -> bool {
        true
    }

    open spec fn from_spec(array: [CKCNumber; 3]) -> Three {
        Three(array)
    }
}

impl Three {

    pub fn second(&self) -> (r: CKCNumber)
        ensures
            r == self@[1],
    {
        self.0[1]
    }
    pub fn third(&self) -> (r: CKCNumber)
        ensures
            r == self@[2],
    {
        self.0[2]
    }

    pub fn set_first(&mut self, card_number: CKCNumber)
        ensures
            final(self)@ =~= old(self)@.update(0, card_number),
    {
        self.0[0] = card_number;
    }
    pub fn set_second(&mut self, card_number: CKCNumber)
        ensures
            final(self)@ =~= old(self)@.update(1, card_number),
    {
        self.0[1] = card_number;
    }
    pub fn set_third(&mut self, card_number: CKCNumber)
        ensures
            final(self)@ =~= old(self)@.update(2, card_number),
    {
        self.0[2] = card_number;
    }

    pub fn to_arr(&self) -> (r: [CKCNumber; 3])
        ensures
            r@ =~= self@,
    {
        self.0
    }

    /// Builds a hand from 3 whitespace-separated card indexes; fewer
    /// indexes fail with `InvalidIndex`.
    pub fn try_from(index: &str) -> (r: Result<Three, HandError>)
        ensures
            ({
                match spec_cards_from(index@, 0, 3) {
                    Some(cards) => r matches Ok(hand) && hand@ =~= cards,
                    None => r matches Err(e) && e == HandError::InvalidIndex,
                }
            }),
    {
        match crate::parse::cards_from_index(index, 3) {
            None => Err(HandError::InvalidIndex),
            Some(cards) => Ok(Three([cards[0], cards[1], cards[2]])),
        }
    }
}


impl HandValidator for Three {
    fn are_unique(&self) -> (r: bool) {
        let c = self.0;
        let r = c[0] != c[1] && c[0] != c[2] && c[1] != c[2];
        proof {
            assert(self@ =~= seq![c@[0], c@[1], c@[2]]);
        }
        r
    }

    fn first(&self) -> (r: CKCNumber) {
        self.0[0]
    }

    fn sort(&self) -> (r: Three) {
        let mut array = *self;
        array.sort_in_place();
        array
    }

    fn sort_in_place(&mut self) {
        let mut v: Vec<CKCNumber> = Vec::new();
        v.push(self.0[0]);
        v.push(self.0[1]);
        v.push(self.0[2]);
        proof {
            assert(v@ =~= old(self)@);
        }
        let sorted_vec = crate::cards::sort_desc_vec(v);
        self.0 = [sorted_vec[0], sorted_vec[1], sorted_vec[2]];
        proof {
            assert(final(self)@ =~= sorted_vec@);
        }
    }

    fn contain_blank(&self) -> (r: bool) {
        let c = self.0;
        let r = c[0] == 0 || c[1] == 0 || c[2] == 0;
        proof {
            assert(self@ =~= seq![c@[0], c@[1], c@[2]]);
        }
        r
    }

    fn is_corrupt(&self) -> (r: bool) {
        let c = self.0;
        let r = CardNumber::filter(c[0]) == 0 || CardNumber::filter(c[1]) == 0 || CardNumber::filter(c[2]) == 0;
        proof {
            assert(self@ =~= seq![c@[0], c@[1], c@[2]]);
        }
        r
    }

    fn is_valid(&self) -> (r: bool) {
        self.are_unique() && !self.is_corrupt()
    }
}

} // verus!
