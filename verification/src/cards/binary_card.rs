use vstd::prelude::*;

use crate::cards::five::Five;
use crate::cards::four::Four;
use crate::cards::seven::Seven;
use crate::cards::six::Six;
use crate::cards::three::Three;
use crate::cards::two::Two;
use crate::cards::HandValidator;
use crate::lookups::spec_popcount;
use crate::parse::{first_non_ws, first_ws, is_ws, spec_card_at};
use crate::{CKCNumber, CardNumber, PokerCard};

verus! {

/// A 52-bit card set: one bit per specific card, ordered spades, hearts,
/// diamonds, clubs, each suit from the ace down to the deuce; a valid set
/// has no bit above the 52nd, and zero is the blank set.
pub type BinaryCard = u64;

/// The twelve high bits no valid card set may touch.
pub const OVERFLOW_MASK: u64 = 0xFFF0_0000_0000_0000;

/// The mask of the single card that sits at position `i` of the deck
/// order: the ace of spades first, the deuce of clubs last.
pub open spec fn spec_deck_card(i: int) -> u64 {
    if 0 <= i < 52 {
        (1u64 << ((51 - i) as u64))
    } else {
        0
    }
}

/// The position the first card of the set holds in deck order, or 52 when
/// no card at or after `i` is in the set.
pub open spec fn spec_first_card_at(bc: BinaryCard, i: int) -> int
    decreases 52 - i when 0 <= i <= 52
{
    if i >= 52 {
        52
    } else if bc & spec_deck_card(i) == spec_deck_card(i) {
        i
    } else {
        spec_first_card_at(bc, i + 1)
    }
}

/// What one peel of a set returns: the single-card mask of the first card
/// of the set in deck order, or blank when the set holds no card.
pub open spec fn spec_peel_card(bc: BinaryCard) -> u64 {
    if spec_first_card_at(bc, 0) == 52 {
        0
    } else {
        spec_deck_card(spec_first_card_at(bc, 0))
    }
}

/// The set operations of the 52-bit card-set representation.
pub trait BC64: Sized {
    const BLANK: u64 = 0;
    const ACE_SPADES: u64 = 0b1000_0000_0000_0000_0000_0000_0000_0000_0000_0000_0000_0000_0000;
    const KING_SPADES: u64 = 0b0100_0000_0000_0000_0000_0000_0000_0000_0000_0000_0000_0000_0000;
    const QUEEN_SPADES: u64 = 0b0010_0000_0000_0000_0000_0000_0000_0000_0000_0000_0000_0000_0000;
    const JACK_SPADES: u64 = 0b0001_0000_0000_0000_0000_0000_0000_0000_0000_0000_0000_0000_0000;
    const TEN_SPADES: u64 = 0b0000_1000_0000_0000_0000_0000_0000_0000_0000_0000_0000_0000_0000;
    const NINE_SPADES: u64 = 0b0000_0100_0000_0000_0000_0000_0000_0000_0000_0000_0000_0000_0000;
    const EIGHT_SPADES: u64 = 0b0000_0010_0000_0000_0000_0000_0000_0000_0000_0000_0000_0000_0000;
    const SEVEN_SPADES: u64 = 0b0000_0001_0000_0000_0000_0000_0000_0000_0000_0000_0000_0000_0000;
    const SIX_SPADES: u64 = 0b0000_0000_1000_0000_0000_0000_0000_0000_0000_0000_0000_0000_0000;
    const FIVE_SPADES: u64 = 0b0000_0000_0100_0000_0000_0000_0000_0000_0000_0000_0000_0000_0000;
    const FOUR_SPADES: u64 = 0b0000_0000_0010_0000_0000_0000_0000_0000_0000_0000_0000_0000_0000;
    const TREY_SPADES: u64 = 0b0000_0000_0001_0000_0000_0000_0000_0000_0000_0000_0000_0000_0000;
    const DEUCE_SPADES: u64 = 0b0000_0000_0000_1000_0000_0000_0000_0000_0000_0000_0000_0000_0000;
    const ACE_HEARTS: u64 = 0b0000_0000_0000_0100_0000_0000_0000_0000_0000_0000_0000_0000_0000;
    const KING_HEARTS: u64 = 0b0000_0000_0000_0010_0000_0000_0000_0000_0000_0000_0000_0000_0000;
    const QUEEN_HEARTS: u64 = 0b0000_0000_0000_0001_0000_0000_0000_0000_0000_0000_0000_0000_0000;
    const JACK_HEARTS: u64 = 0b0000_0000_0000_0000_1000_0000_0000_0000_0000_0000_0000_0000_0000;
    const TEN_HEARTS: u64 = 0b0000_0000_0000_0000_0100_0000_0000_0000_0000_0000_0000_0000_0000;
    const NINE_HEARTS: u64 = 0b0000_0000_0000_0000_0010_0000_0000_0000_0000_0000_0000_0000_0000;
    const EIGHT_HEARTS: u64 = 0b0000_0000_0000_0000_0001_0000_0000_0000_0000_0000_0000_0000_0000;
    const SEVEN_HEARTS: u64 = 0b0000_0000_0000_0000_0000_1000_0000_0000_0000_0000_0000_0000_0000;
    const SIX_HEARTS: u64 = 0b0000_0000_0000_0000_0000_0100_0000_0000_0000_0000_0000_0000_0000;
    const FIVE_HEARTS: u64 = 0b0000_0000_0000_0000_0000_0010_0000_0000_0000_0000_0000_0000_0000;
    const FOUR_HEARTS: u64 = 0b0000_0000_0000_0000_0000_0001_0000_0000_0000_0000_0000_0000_0000;
    const TREY_HEARTS: u64 = 0b0000_0000_0000_0000_0000_0000_1000_0000_0000_0000_0000_0000_0000;
    const DEUCE_HEARTS: u64 = 0b0000_0000_0000_0000_0000_0000_0100_0000_0000_0000_0000_0000_0000;
    const ACE_DIAMONDS: u64 = 0b0000_0000_0000_0000_0000_0000_0010_0000_0000_0000_0000_0000_0000;
    const KING_DIAMONDS: u64 = 0b0000_0000_0000_0000_0000_0000_0001_0000_0000_0000_0000_0000_0000;
    const QUEEN_DIAMONDS: u64 = 0b0000_0000_0000_0000_0000_0000_0000_1000_0000_0000_0000_0000_0000;
    const JACK_DIAMONDS: u64 = 0b0000_0000_0000_0000_0000_0000_0000_0100_0000_0000_0000_0000_0000;
    const TEN_DIAMONDS: u64 = 0b0000_0000_0000_0000_0000_0000_0000_0010_0000_0000_0000_0000_0000;
    const NINE_DIAMONDS: u64 = 0b0000_0000_0000_0000_0000_0000_0000_0001_0000_0000_0000_0000_0000;
    const EIGHT_DIAMONDS: u64 = 0b0000_0000_0000_0000_0000_0000_0000_0000_1000_0000_0000_0000_0000;
    const SEVEN_DIAMONDS: u64 = 0b0000_0000_0000_0000_0000_0000_0000_0000_0100_0000_0000_0000_0000;
    const SIX_DIAMONDS: u64 = 0b0000_0000_0000_0000_0000_0000_0000_0000_0010_0000_0000_0000_0000;
    const FIVE_DIAMONDS: u64 = 0b0000_0000_0000_0000_0000_0000_0000_0000_0001_0000_0000_0000_0000;
    const FOUR_DIAMONDS: u64 = 0b0000_0000_0000_0000_0000_0000_0000_0000_0000_1000_0000_0000_0000;
    const TREY_DIAMONDS: u64 = 0b0000_0000_0000_0000_0000_0000_0000_0000_0000_0100_0000_0000_0000;
    const DEUCE_DIAMONDS: u64 = 0b0000_0000_0000_0000_0000_0000_0000_0000_0000_0010_0000_0000_0000;
    const ACE_CLUBS: u64 = 0b0000_0000_0000_0000_0000_0000_0000_0000_0000_0001_0000_0000_0000;
    const KING_CLUBS: u64 = 0b0000_0000_0000_0000_0000_0000_0000_0000_0000_0000_1000_0000_0000;
    const QUEEN_CLUBS: u64 = 0b0000_0000_0000_0000_0000_0000_0000_0000_0000_0000_0100_0000_0000;
    const JACK_CLUBS: u64 = 0b0000_0000_0000_0000_0000_0000_0000_0000_0000_0000_0010_0000_0000;
    const TEN_CLUBS: u64 = 0b0000_0000_0000_0000_0000_0000_0000_0000_0000_0000_0001_0000_0000;
    const NINE_CLUBS: u64 = 0b0000_0000_0000_0000_0000_0000_0000_0000_0000_0000_0000_1000_0000;
    const EIGHT_CLUBS: u64 = 0b0000_0000_0000_0000_0000_0000_0000_0000_0000_0000_0000_0100_0000;
    const SEVEN_CLUBS: u64 = 0b0000_0000_0000_0000_0000_0000_0000_0000_0000_0000_0000_0010_0000;
    const SIX_CLUBS: u64 = 0b0000_0000_0000_0000_0000_0000_0000_0000_0000_0000_0000_0001_0000;
    const FIVE_CLUBS: u64 = 0b0000_0000_0000_0000_0000_0000_0000_0000_0000_0000_0000_0000_1000;
    const FOUR_CLUBS: u64 = 0b0000_0000_0000_0000_0000_0000_0000_0000_0000_0000_0000_0000_0100;
    const TREY_CLUBS: u64 = 0b0000_0000_0000_0000_0000_0000_0000_0000_0000_0000_0000_0000_0010;
    const DEUCE_CLUBS: u64 = 0b0000_0000_0000_0000_0000_0000_0000_0000_0000_0000_0000_0000_0001;
    const ALL: u64 = 0b1111_1111_1111_1111_1111_1111_1111_1111_1111_1111_1111_1111_1111;
    const OVERFLOW: u64 = 0b1111_1111_1111_0000_0000_0000_0000_0000_0000_0000_0000_0000_0000_0000_0000_0000;

    const ACES: u64 = 0x8004002001000;
    const KINGS: u64 = 0x4002001000800;
    const QUEENS: u64 = 0x2001000800400;
    const JACKS: u64 = 0x1000800400200;
    const TENS: u64 = 0x800400200100;
    const NINES: u64 = 0x400200100080;
    const EIGHTS: u64 = 0x200100080040;
    const SEVENS: u64 = 0x100080040020;
    const SIXES: u64 = 0x80040020010;
    const FIVES: u64 = 0x40020010008;
    const FOURS: u64 = 0x20010008004;
    const TREYS: u64 = 0x10008004002;
    const DEUCES: u64 = 0x8004002001;

    /// The raw bits this set stands for.
    spec fn spec_set(&self) -> u64;

    fn as_u64(&self) -> (r: u64)
        ensures
            r == self.spec_set(),
    ;

    /// The single-card mask of a packed card, blank for anything that is
    /// not one of the 52 legal cards.
    fn from_ckc(ckc: CKCNumber) -> (r: BinaryCard)
        ensures
            r == spec_from_ckc(ckc),
    ;

    /// The set holding the cards of a two-card hand.
    fn from_two(two: Two) -> (r: BinaryCard)
        ensures
            r == (spec_from_ckc(two@[0]) | spec_from_ckc(two@[1])),
    ;

    /// The set holding the cards of a three-card hand.
    fn from_three(three: Three) -> (r: BinaryCard)
        ensures
            r == (spec_from_ckc(three@[0]) | spec_from_ckc(three@[1]) | spec_from_ckc(
                three@[2],
            )),
    ;

    /// The set holding the cards of a four-card hand.
    fn from_four(four: Four) -> (r: BinaryCard)
        ensures
            r == (spec_from_ckc(four@[0]) | spec_from_ckc(four@[1]) | spec_from_ckc(four@[2])
                | spec_from_ckc(four@[3])),
    ;

    /// The set holding the cards of a five-card hand.
    fn from_five(five: Five) -> (r: BinaryCard)
        ensures
            r == (spec_from_ckc(five@[0]) | spec_from_ckc(five@[1]) | spec_from_ckc(five@[2])
                | spec_from_ckc(five@[3]) | spec_from_ckc(five@[4])),
    ;

    /// The set holding the cards of a six-card hand.
    fn from_six(six: Six) -> (r: BinaryCard)
        ensures
            r == (spec_from_ckc(six@[0]) | spec_from_ckc(six@[1]) | spec_from_ckc(six@[2])
                | spec_from_ckc(six@[3]) | spec_from_ckc(six@[4]) | spec_from_ckc(six@[5])),
    ;

    /// The set holding the cards of a seven-card hand.
    fn from_seven(seven: Seven) -> (r: BinaryCard)
        ensures
            r == (spec_from_ckc(seven@[0]) | spec_from_ckc(seven@[1]) | spec_from_ckc(
                seven@[2],
            ) | spec_from_ckc(seven@[3]) | spec_from_ckc(seven@[4]) | spec_from_ckc(seven@[5])
                | spec_from_ckc(seven@[6])),
    ;

    /// The set folding in every card index the string names.
    fn from_index(index: &str) -> (r: BinaryCard)
        ensures
            r == spec_bc_from_index(index@, 0),
    ;

    /// Set union: folds another set of cards into this one.
    fn fold_in(&self, bc: BinaryCard) -> (r: BinaryCard)
        ensures
            r == (self.spec_set() | bc),
    ;

    /// Membership: every bit of `card` is present in the set.
    fn has(&self, card: u64) -> (r: bool)
        ensures
            r == (self.spec_set() & card == card),
    ;

    fn is_single_card(&self) -> (r: bool)
        ensures
            r == (spec_popcount(self.spec_set() as int) == 1),
    ;

    /// A valid set is not blank and sets no bit above the 52 card bits.
    fn is_valid(&self) -> (r: bool)
        ensures
            r == (self.spec_set() != 0 && self.spec_set() & OVERFLOW_MASK == 0),
    ;

    fn number_of_cards(&self) -> (r: u32)
        ensures
            r == spec_popcount(self.spec_set() as int),
    ;

    /// Removes and returns the first card of the set in deck order; a set
    /// without cards stays as it is and yields blank.
    fn peel(&mut self) -> (r: BinaryCard)
        ensures
            r == spec_peel_card(old(self).spec_set()),
            final(self).spec_set() == old(self).spec_set() & !r,
            r & old(self).spec_set() == r,
    ;
}

/// The single-card mask a packed card maps to.
pub open spec fn spec_from_ckc(ckc: CKCNumber) -> BinaryCard {
    if ckc == CardNumber::ACE_SPADES { 0x8000000000000u64 } else 
    if ckc == CardNumber::KING_SPADES { 0x4000000000000u64 } else 
    if ckc == CardNumber::QUEEN_SPADES { 0x2000000000000u64 } else 
    if ckc == CardNumber::JACK_SPADES { 0x1000000000000u64 } else 
    if ckc == CardNumber::TEN_SPADES { 0x800000000000u64 } else 
    if ckc == CardNumber::NINE_SPADES { 0x400000000000u64 } else 
    if ckc == CardNumber::EIGHT_SPADES { 0x200000000000u64 } else 
    if ckc == CardNumber::SEVEN_SPADES { 0x100000000000u64 } else 
    if ckc == CardNumber::SIX_SPADES { 0x80000000000u64 } else 
    if ckc == CardNumber::FIVE_SPADES { 0x40000000000u64 } else 
    if ckc == CardNumber::FOUR_SPADES { 0x20000000000u64 } else 
    if ckc == CardNumber::TREY_SPADES { 0x10000000000u64 } else 
    if ckc == CardNumber::DEUCE_SPADES { 0x8000000000u64 } else 
    if ckc == CardNumber::ACE_HEARTS { 0x4000000000u64 } else 
    if ckc == CardNumber::KING_HEARTS { 0x2000000000u64 } else 
    if ckc == CardNumber::QUEEN_HEARTS { 0x1000000000u64 } else 
    if ckc == CardNumber::JACK_HEARTS { 0x800000000u64 } else 
    if ckc == CardNumber::TEN_HEARTS { 0x400000000u64 } else 
    if ckc == CardNumber::NINE_HEARTS { 0x200000000u64 } else 
    if ckc == CardNumber::EIGHT_HEARTS { 0x100000000u64 } else 
    if ckc == CardNumber::SEVEN_HEARTS { 0x80000000u64 } else 
    if ckc == CardNumber::SIX_HEARTS { 0x40000000u64 } else 
    if ckc == CardNumber::FIVE_HEARTS { 0x20000000u64 } else 
    if ckc == CardNumber::FOUR_HEARTS { 0x10000000u64 } else 
    if ckc == CardNumber::TREY_HEARTS { 0x8000000u64 } else 
    if ckc == CardNumber::DEUCE_HEARTS { 0x4000000u64 } else 
    if ckc == CardNumber::ACE_DIAMONDS { 0x2000000u64 } else 
    if ckc == CardNumber::KING_DIAMONDS { 0x1000000u64 } else 
    if ckc == CardNumber::QUEEN_DIAMONDS { 0x800000u64 } else 
    if ckc == CardNumber::JACK_DIAMONDS { 0x400000u64 } else 
    if ckc == CardNumber::TEN_DIAMONDS { 0x200000u64 } else 
    if ckc == CardNumber::NINE_DIAMONDS { 0x100000u64 } else 
    if ckc == CardNumber::EIGHT_DIAMONDS { 0x80000u64 } else 
    if ckc == CardNumber::SEVEN_DIAMONDS { 0x40000u64 } else 
    if ckc == CardNumber::SIX_DIAMONDS { 0x20000u64 } else 
    if ckc == CardNumber::FIVE_DIAMONDS { 0x10000u64 } else 
    if ckc == CardNumber::FOUR_DIAMONDS { 0x8000u64 } else 
    if ckc == CardNumber::TREY_DIAMONDS { 0x4000u64 } else 
    if ckc == CardNumber::DEUCE_DIAMONDS { 0x2000u64 } else 
    if ckc == CardNumber::ACE_CLUBS { 0x1000u64 } else 
    if ckc == CardNumber::KING_CLUBS { 0x800u64 } else 
    if ckc == CardNumber::QUEEN_CLUBS { 0x400u64 } else 
    if ckc == CardNumber::JACK_CLUBS { 0x200u64 } else 
    if ckc == CardNumber::TEN_CLUBS { 0x100u64 } else 
    if ckc == CardNumber::NINE_CLUBS { 0x80u64 } else 
    if ckc == CardNumber::EIGHT_CLUBS { 0x40u64 } else 
    if ckc == CardNumber::SEVEN_CLUBS { 0x20u64 } else 
    if ckc == CardNumber::SIX_CLUBS { 0x10u64 } else 
    if ckc == CardNumber::FIVE_CLUBS { 0x8u64 } else 
    if ckc == CardNumber::FOUR_CLUBS { 0x4u64 } else 
    if ckc == CardNumber::TREY_CLUBS { 0x2u64 } else 
    if ckc == CardNumber::DEUCE_CLUBS { 0x1u64 } else { 0u64 }
}

/// The union of the single-card sets named by the card indexes of `s`
/// from position `from` on.
pub open spec fn spec_bc_from_index(s: Seq<char>, from: int) -> u64
    decreases s.len() - from when 0 <= from <= s.len()
{
    let a = first_non_ws(s, from);
    let b = first_ws(s, a);
    if a >= s.len() {
        0u64
    } else if !(from <= a && a < b <= s.len()) {
        0u64
    } else {
        spec_from_ckc(spec_card_at(s, a, b)) | spec_bc_from_index(s, b)
    }
}

impl BC64 for BinaryCard {
    open spec fn spec_set(&self) -> u64 {
        *self
    }

    fn as_u64(&self) -> (r: u64) {
        *self
    }

    fn from_ckc(ckc: CKCNumber) -> (r: BinaryCard) {
        if ckc == CardNumber::ACE_SPADES { BinaryCard::ACE_SPADES } else 
        if ckc == CardNumber::KING_SPADES { BinaryCard::KING_SPADES } else 
        if ckc == CardNumber::QUEEN_SPADES { BinaryCard::QUEEN_SPADES } else 
        if ckc == CardNumber::JACK_SPADES { BinaryCard::JACK_SPADES } else 
        if ckc == CardNumber::TEN_SPADES { BinaryCard::TEN_SPADES } else 
        if ckc == CardNumber::NINE_SPADES { BinaryCard::NINE_SPADES } else 
        if ckc == CardNumber::EIGHT_SPADES { BinaryCard::EIGHT_SPADES } else 
        if ckc == CardNumber::SEVEN_SPADES { BinaryCard::SEVEN_SPADES } else 
        if ckc == CardNumber::SIX_SPADES { BinaryCard::SIX_SPADES } else 
        if ckc == CardNumber::FIVE_SPADES { BinaryCard::FIVE_SPADES } else 
        if ckc == CardNumber::FOUR_SPADES { BinaryCard::FOUR_SPADES } else 
        if ckc == CardNumber::TREY_SPADES { BinaryCard::TREY_SPADES } else 
        if ckc == CardNumber::DEUCE_SPADES { BinaryCard::DEUCE_SPADES } else 
        if ckc == CardNumber::ACE_HEARTS { BinaryCard::ACE_HEARTS } else 
        if ckc == CardNumber::KING_HEARTS { BinaryCard::KING_HEARTS } else 
        if ckc == CardNumber::QUEEN_HEARTS { BinaryCard::QUEEN_HEARTS } else 
        if ckc == CardNumber::JACK_HEARTS { BinaryCard::JACK_HEARTS } else 
        if ckc == CardNumber::TEN_HEARTS { BinaryCard::TEN_HEARTS } else 
        if ckc == CardNumber::NINE_HEARTS { BinaryCard::NINE_HEARTS } else 
        if ckc == CardNumber::EIGHT_HEARTS { BinaryCard::EIGHT_HEARTS } else 
        if ckc == CardNumber::SEVEN_HEARTS { BinaryCard::SEVEN_HEARTS } else 
        if ckc == CardNumber::SIX_HEARTS { BinaryCard::SIX_HEARTS } else 
        if ckc == CardNumber::FIVE_HEARTS { BinaryCard::FIVE_HEARTS } else 
        if ckc == CardNumber::FOUR_HEARTS { BinaryCard::FOUR_HEARTS } else 
        if ckc == CardNumber::TREY_HEARTS { BinaryCard::TREY_HEARTS } else 
        if ckc == CardNumber::DEUCE_HEARTS { BinaryCard::DEUCE_HEARTS } else 
        if ckc == CardNumber::ACE_DIAMONDS { BinaryCard::ACE_DIAMONDS } else 
        if ckc == CardNumber::KING_DIAMONDS { BinaryCard::KING_DIAMONDS } else 
        if ckc == CardNumber::QUEEN_DIAMONDS { BinaryCard::QUEEN_DIAMONDS } else 
        if ckc == CardNumber::JACK_DIAMONDS { BinaryCard::JACK_DIAMONDS } else 
        if ckc == CardNumber::TEN_DIAMONDS { BinaryCard::TEN_DIAMONDS } else 
        if ckc == CardNumber::NINE_DIAMONDS { BinaryCard::NINE_DIAMONDS } else 
        if ckc == CardNumber::EIGHT_DIAMONDS { BinaryCard::EIGHT_DIAMONDS } else 
        if ckc == CardNumber::SEVEN_DIAMONDS { BinaryCard::SEVEN_DIAMONDS } else 
        if ckc == CardNumber::SIX_DIAMONDS { BinaryCard::SIX_DIAMONDS } else 
        if ckc == CardNumber::FIVE_DIAMONDS { BinaryCard::FIVE_DIAMONDS } else 
        if ckc == CardNumber::FOUR_DIAMONDS { BinaryCard::FOUR_DIAMONDS } else 
        if ckc == CardNumber::TREY_DIAMONDS { BinaryCard::TREY_DIAMONDS } else 
        if ckc == CardNumber::DEUCE_DIAMONDS { BinaryCard::DEUCE_DIAMONDS } else 
        if ckc == CardNumber::ACE_CLUBS { BinaryCard::ACE_CLUBS } else 
        if ckc == CardNumber::KING_CLUBS { BinaryCard::KING_CLUBS } else 
        if ckc == CardNumber::QUEEN_CLUBS { BinaryCard::QUEEN_CLUBS } else 
        if ckc == CardNumber::JACK_CLUBS { BinaryCard::JACK_CLUBS } else 
        if ckc == CardNumber::TEN_CLUBS { BinaryCard::TEN_CLUBS } else 
        if ckc == CardNumber::NINE_CLUBS { BinaryCard::NINE_CLUBS } else 
        if ckc == CardNumber::EIGHT_CLUBS { BinaryCard::EIGHT_CLUBS } else 
        if ckc == CardNumber::SEVEN_CLUBS { BinaryCard::SEVEN_CLUBS } else 
        if ckc == CardNumber::SIX_CLUBS { BinaryCard::SIX_CLUBS } else 
        if ckc == CardNumber::FIVE_CLUBS { BinaryCard::FIVE_CLUBS } else 
        if ckc == CardNumber::FOUR_CLUBS { BinaryCard::FOUR_CLUBS } else 
        if ckc == CardNumber::TREY_CLUBS { BinaryCard::TREY_CLUBS } else 
        if ckc == CardNumber::DEUCE_CLUBS { BinaryCard::DEUCE_CLUBS } else { BinaryCard::BLANK }
    }

    fn from_two(two: Two) -> (r: BinaryCard) {
        BinaryCard::from_ckc(two.first()) | BinaryCard::from_ckc(two.second())
    }

    fn from_three(three: Three) -> (r: BinaryCard) {
        BinaryCard::from_ckc(three.first()) | BinaryCard::from_ckc(three.second())
            | BinaryCard::from_ckc(three.third())
    }

    fn from_four(four: Four) -> (r: BinaryCard) {
        BinaryCard::from_ckc(four.first()) | BinaryCard::from_ckc(four.second())
            | BinaryCard::from_ckc(four.third()) | BinaryCard::from_ckc(four.forth())
    }

    fn from_five(five: Five) -> (r: BinaryCard) {
        BinaryCard::from_ckc(five.first()) | BinaryCard::from_ckc(five.second())
            | BinaryCard::from_ckc(five.third()) | BinaryCard::from_ckc(five.forth())
            | BinaryCard::from_ckc(five.fifth())
    }

    fn from_six(six: Six) -> (r: BinaryCard) {
        BinaryCard::from_ckc(six.first()) | BinaryCard::from_ckc(six.second())
            | BinaryCard::from_ckc(six.third()) | BinaryCard::from_ckc(six.forth())
            | BinaryCard::from_ckc(six.fifth()) | BinaryCard::from_ckc(six.sixth())
    }

    fn from_seven(seven: Seven) -> (r: BinaryCard) {
        BinaryCard::from_ckc(seven.first()) | BinaryCard::from_ckc(seven.second())
            | BinaryCard::from_ckc(seven.third()) | BinaryCard::from_ckc(seven.forth())
            | BinaryCard::from_ckc(seven.fifth()) | BinaryCard::from_ckc(seven.sixth())
            | BinaryCard::from_ckc(seven.seventh())
    }

    fn from_index(index: &str) -> (r: BinaryCard) {
        let len = index.unicode_len();
        let mut bc: u64 = 0;
        let mut pos: usize = 0;
        proof {
            let x = spec_bc_from_index(index@, 0);
            assert(0u64 | x == x) by (bit_vector);
        }
        loop
            invariant
                pos <= len,
                len == index@.len(),
                spec_bc_from_index(index@, 0) == (bc | spec_bc_from_index(index@, pos as int)),
            decreases len - pos,
        {
            match crate::parse::next_card(index, pos, len) {
                None => {
                    proof {
                        let b0 = bc;
                        assert(b0 | 0u64 == b0) by (bit_vector);
                    }
                    return bc;
                },
                Some((c, p)) => {
                    proof {
                        crate::parse::lemma_token_advances(index@, pos as int);
                    }
                    let card = BinaryCard::from_ckc(c);
                    proof {
                        let b0 = bc;
                        let x = spec_from_ckc(c);
                        let rest = spec_bc_from_index(index@, p as int);
                        assert(b0 | (x | rest) == (b0 | x) | rest) by (bit_vector);
                    }
                    bc = bc | card;
                    pos = p;
                },
            }
        }
    }

    fn fold_in(&self, bc: BinaryCard) -> (r: BinaryCard) {
        *self | bc
    }

    fn has(&self, card: u64) -> (r: bool) {
        *self & card == card
    }

    fn is_single_card(&self) -> (r: bool) {
        self.number_of_cards() == 1
    }

    fn is_valid(&self) -> (r: bool) {
        (*self != BinaryCard::BLANK) && (*self & OVERFLOW_MASK == 0)
    }

    fn number_of_cards(&self) -> (r: u32) {
        popcount64(*self)
    }

    fn peel(&mut self) -> (r: BinaryCard) {
        let mut i: usize = 0;
        while i < 52
            invariant
                i <= 52,
                *self == *old(self),
                spec_first_card_at(*old(self), 0) == spec_first_card_at(*old(self), i as int),
            decreases 52 - i,
        {
            let mask: u64 = 1u64 << (51 - i) as u64;
            if *self & mask == mask {
                *self = *self ^ mask;
                proof {
                    let b = *old(self);
                    assert(b ^ mask == b & !mask && mask & b == mask) by (bit_vector)
                        requires
                            b & mask == mask,
                    ;
                }
                return mask;
            }
            i = i + 1;
        }
        proof {
            let b = *old(self);
            assert(b & !0u64 == b && 0u64 & b == 0) by (bit_vector);
        }
        BinaryCard::BLANK
    }
}

/// Counts the set bits of a 64-bit value.
pub fn popcount64(x: u64) -> (r: u32)
    ensures
        r == spec_popcount(x as int),
{
    let mut rest: u64 = x;
    let mut count: u32 = 0;
    proof {
        crate::lookups::lemma_popcount_width64(x as int);
    }
    while rest != 0
        invariant
            count + spec_popcount(rest as int) == spec_popcount(x as int),
            spec_popcount(x as int) <= 64,
        decreases rest,
    {
        proof {
            crate::lookups::lemma_popcount_width64(rest as int);
            crate::lookups::lemma_popcount_width64(rest as int / 2);
        }
        count = count + (rest % 2) as u32;
        rest = rest / 2;
    }
    count
}


// =====================================================================
// Peeling a whole set: the decomposition law.
// =====================================================================

/// Clearing a set bit lowers the bit count by exactly one.
proof fn lemma_popcount_clear(b: u64, j: u64)
    requires
        j < 64,
        b & (1u64 << j) == (1u64 << j),
    ensures
        spec_popcount((b & !(1u64 << j)) as int) == spec_popcount(b as int) - 1,
    decreases j,
{
    if j == 0 {
        assert(b % 2 == 1 && (b & !(1u64 << 0u64)) == (b / 2) * 2 && b != 0) by (bit_vector)
            requires
                b & (1u64 << 0u64) == (1u64 << 0u64),
        ;
        let k = b / 2;
        assert(spec_popcount((k * 2) as int) == spec_popcount(k as int));
        assert(spec_popcount(b as int) == 1 + spec_popcount(k as int));
    } else {
        assert((b & !(1u64 << j)) % 2 == b % 2 && (b & !(1u64 << j)) / 2 == (b / 2) & !(1u64 << (
        (j - 1) as u64)) && (b / 2) & (1u64 << ((j - 1) as u64)) == (1u64 << ((j - 1) as u64))
            && b != 0) by (bit_vector)
            requires
                0 < j < 64 && b & (1u64 << j) == (1u64 << j),
        ;
        lemma_popcount_clear(b / 2, (j - 1) as u64);
        assert(spec_popcount(b as int) == b % 2 + spec_popcount((b / 2) as int));
        if b & !(1u64 << j) != 0 {
            assert(spec_popcount((b & !(1u64 << j)) as int) == (b & !(1u64 << j)) % 2
                + spec_popcount(((b & !(1u64 << j)) / 2) as int));
        }
    }
}

/// When the scan reports no card at or past `i`, the set holds no card
/// bit below the corresponding position.
proof fn lemma_first_card_none(b: u64, i: u64)
    requires
        i <= 52,
        spec_first_card_at(b, i as int) == 52,
    ensures
        b & (((1u64 << ((52 - i) as u64)) - 1) as u64) == 0,
    decreases 52 - i,
{
    if i == 52 {
        assert(b & (((1u64 << 0u64) - 1) as u64) == 0) by (bit_vector);
    } else {
        assert(spec_deck_card(i as int) == (1u64 << ((51 - i) as u64)));
        lemma_first_card_none(b, (i + 1) as u64);
        assert(b & (((1u64 << ((52 - i) as u64)) - 1) as u64) == 0) by (bit_vector)
            requires
                i < 52,
                b & (((1u64 << ((51 - i) as u64)) - 1) as u64) == 0,
                b & (1u64 << ((51 - i) as u64)) != (1u64 << ((51 - i) as u64)),
        ;
    }
}

proof fn lemma_first_card_range(b: u64, i: u64)
    requires
        i <= 52,
    ensures
        i as int <= spec_first_card_at(b, i as int) <= 52,
    decreases 52 - i,
{
    if i < 52 && !(b & spec_deck_card(i as int) == spec_deck_card(i as int)) {
        lemma_first_card_range(b, (i + 1) as u64);
    }
}

/// When the scan reports a card, that card's bit really is in the set.
proof fn lemma_first_card_found(b: u64, i: u64)
    requires
        i <= 52,
        spec_first_card_at(b, i as int) < 52,
    ensures
        i <= spec_first_card_at(b, i as int),
        b & spec_deck_card(spec_first_card_at(b, i as int)) == spec_deck_card(
            spec_first_card_at(b, i as int),
        ),
    decreases 52 - i,
{
    if !(b & spec_deck_card(i as int) == spec_deck_card(i as int)) {
        lemma_first_card_found(b, (i + 1) as u64);
    }
}

/// The cards of a set, peeled off one at a time in deck order.
pub open spec fn spec_peel_seq(b: u64) -> Seq<u64>
    decreases spec_popcount(b as int),
    when spec_popcount(b as int) >= 0
    via spec_peel_seq_decreases
{
    if spec_peel_card(b) == 0 {
        Seq::empty()
    } else {
        seq![spec_peel_card(b)] + spec_peel_seq(b & !spec_peel_card(b))
    }
}

#[via_fn]
proof fn spec_peel_seq_decreases(b: u64) {
    crate::lookups::lemma_popcount_width64(b as int);
    if spec_peel_card(b) != 0 {
        let i = spec_first_card_at(b, 0);
        lemma_first_card_found(b, 0);
        let j = (51 - i) as u64;
        assert(spec_deck_card(i) == (1u64 << j));
        lemma_popcount_clear(b, j);
        crate::lookups::lemma_popcount_width64((b & !(1u64 << j)) as int);
    }
}

proof fn proof_popcount_nonneg(b: u64)
    ensures
        spec_popcount(b as int) >= 0,
{
    crate::lookups::lemma_popcount_width64(b as int);
}

/// The union of a run of card sets.
pub open spec fn spec_or_fold(s: Seq<u64>) -> u64
    decreases s.len(),
{
    if s.len() == 0 {
        0u64
    } else {
        s[0] | spec_or_fold(s.drop_first())
    }
}

/// Law: peeling a valid card set until it is empty yields exactly one
/// extraction per card of the set, all distinct and all drawn from the
/// set, and folding the extractions back together rebuilds the set
/// exactly, leaving nothing behind.
pub proof fn lemma_peel_decomposition(b: BinaryCard)
    requires
        b & OVERFLOW_MASK == 0,
    ensures
        spec_peel_seq(b).len() == spec_popcount(b as int),
        spec_or_fold(spec_peel_seq(b)) == b,
        forall|i: int, j: int|
            0 <= i < j < spec_peel_seq(b).len() ==> spec_peel_seq(b)[i] != spec_peel_seq(b)[j],
        forall|i: int|
            0 <= i < spec_peel_seq(b).len() ==> (b & #[trigger] spec_peel_seq(b)[i])
                == spec_peel_seq(b)[i] && spec_peel_seq(b)[i] != 0,
    decreases spec_popcount(b as int),
{
    crate::lookups::lemma_popcount_width64(b as int);
    lemma_first_card_range(b, 0);
    if spec_peel_card(b) == 0 {
        if spec_first_card_at(b, 0) < 52 {
            let i0 = spec_first_card_at(b, 0);
            let j0 = (51 - i0) as u64;
            assert(spec_deck_card(i0) == (1u64 << j0));
            assert((1u64 << j0) != 0) by (bit_vector)
                requires
                    j0 < 64,
            ;
        }
        lemma_first_card_none(b, 0);
        assert(b == 0) by (bit_vector)
            requires
                b & 0xFFF0_0000_0000_0000u64 == 0,
                b & (((1u64 << 52u64) - 1) as u64) == 0,
        ;
    } else {
        let i = spec_first_card_at(b, 0);
        lemma_first_card_found(b, 0);
        let m = spec_deck_card(i);
        let j = (51 - i) as u64;
        assert(m == (1u64 << j));
        let rest = b & !m;
        lemma_popcount_clear(b, j);
        assert(rest & OVERFLOW_MASK == 0 && (m | rest) == b && rest & m == 0 && m != 0) by (
        bit_vector)
            requires
                m == (1u64 << j),
                j < 52,
                rest == b & !m,
                b & m == m,
                b & 0xFFF0_0000_0000_0000u64 == 0,
        ;
        assert(spec_popcount(rest as int) == spec_popcount(b as int) - 1);
        proof_popcount_nonneg(rest);
        lemma_peel_decomposition(rest);
        let tail = spec_peel_seq(rest);
        assert(spec_peel_seq(b) =~= seq![m] + tail);
        assert(spec_peel_seq(b).drop_first() =~= tail);
        assert forall|k: int| 0 <= k < tail.len() implies (b & #[trigger] tail[k]) == tail[k]
            && tail[k] != m by {
            let e = tail[k];
            assert((b & e) == e && e != m) by (bit_vector)
                requires
                    (rest & e) == e,
                    rest == b & !m,
                    rest & m == 0,
                    e != 0,
            ;
        }
    }
}

} // verus!
