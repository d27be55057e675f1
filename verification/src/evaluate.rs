use vstd::prelude::*;

use crate::cards::five::{spec_and5, spec_eval_post, spec_or_rank_bits, Five};
use crate::cards::spec_hand_valid;
use crate::hand_rank::HandRankValue;
use crate::{CKCNumber, CardNumber};

verus! {

/// The number of distinct 13-bit rank signatures the evaluator's tables
/// cover.
pub const POSSIBLE_COMBINATIONS: usize = 7937;

/// Ranks five packed cards through the validity gate: a corrupt or
/// repeated card makes the result 0, anything else lands in 1 through
/// 7462.
pub fn five_cards(cards: [CKCNumber; 5]) -> (r: HandRankValue)
    ensures
        !spec_hand_valid(cards@) ==> r == 0,
        spec_hand_valid(cards@) ==> spec_eval_post(cards@, r) && 1 <= r <= 7462,
{
    Five::from(cards).hand_rank_value_validated()
}

/// Whether all five cards share a suit.
pub fn is_flush(five_cards: [CKCNumber; 5]) -> (r: bool)
    ensures
        r == (spec_and5(five_cards@) & CardNumber::SUIT_FILTER != 0),
{
    (five_cards[0] & five_cards[1] & five_cards[2] & five_cards[3] & five_cards[4]
        & CardNumber::SUIT_FILTER) != 0
}

/// The 13-bit rank signature of five packed cards: the OR of their rank
/// flags.
pub fn or_rank_bits(five_cards: [CKCNumber; 5]) -> (r: usize)
    ensures
        r == spec_or_rank_bits(five_cards@),
{
    let f = Five::from(five_cards);
    f.or_rank_bits() as usize
}

} // verus!
