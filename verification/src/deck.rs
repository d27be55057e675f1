use vstd::prelude::*;

use crate::{CKCNumber, CardNumber};

verus! {

pub const DECK_SIZE: usize = 52;

/// The packed card at position `i` of the standard deck: spades, hearts,
/// diamonds, clubs, each suit from the ace down; anything past the deck
/// is blank.
pub open spec fn spec_deck_card_at(i: int) -> CKCNumber {
    if i == 0 { CardNumber::ACE_SPADES } else 
    if i == 1 { CardNumber::KING_SPADES } else 
    if i == 2 { CardNumber::QUEEN_SPADES } else 
    if i == 3 { CardNumber::JACK_SPADES } else 
    if i == 4 { CardNumber::TEN_SPADES } else 
    if i == 5 { CardNumber::NINE_SPADES } else 
    if i == 6 { CardNumber::EIGHT_SPADES } else 
    if i == 7 { CardNumber::SEVEN_SPADES } else 
    if i == 8 { CardNumber::SIX_SPADES } else 
    if i == 9 { CardNumber::FIVE_SPADES } else 
    if i == 10 { CardNumber::FOUR_SPADES } else 
    if i == 11 { CardNumber::TREY_SPADES } else 
    if i == 12 { CardNumber::DEUCE_SPADES } else 
    if i == 13 { CardNumber::ACE_HEARTS } else 
    if i == 14 { CardNumber::KING_HEARTS } else 
    if i == 15 { CardNumber::QUEEN_HEARTS } else 
    if i == 16 { CardNumber::JACK_HEARTS } else 
    if i == 17 { CardNumber::TEN_HEARTS } else 
    if i == 18 { CardNumber::NINE_HEARTS } else 
    if i == 19 { CardNumber::EIGHT_HEARTS } else 
    if i == 20 { CardNumber::SEVEN_HEARTS } else 
    if i == 21 { CardNumber::SIX_HEARTS } else 
    if i == 22 { CardNumber::FIVE_HEARTS } else 
    if i == 23 { CardNumber::FOUR_HEARTS } else 
    if i == 24 { CardNumber::TREY_HEARTS } else 
    if i == 25 { CardNumber::DEUCE_HEARTS } else 
    if i == 26 { CardNumber::ACE_DIAMONDS } else 
    if i == 27 { CardNumber::KING_DIAMONDS } else 
    if i == 28 { CardNumber::QUEEN_DIAMONDS } else 
    if i == 29 { CardNumber::JACK_DIAMONDS } else 
    if i == 30 { CardNumber::TEN_DIAMONDS } else 
    if i == 31 { CardNumber::NINE_DIAMONDS } else 
    if i == 32 { CardNumber::EIGHT_DIAMONDS } else 
    if i == 33 { CardNumber::SEVEN_DIAMONDS } else 
    if i == 34 { CardNumber::SIX_DIAMONDS } else 
    if i == 35 { CardNumber::FIVE_DIAMONDS } else 
    if i == 36 { CardNumber::FOUR_DIAMONDS } else 
    if i == 37 { CardNumber::TREY_DIAMONDS } else 
    if i == 38 { CardNumber::DEUCE_DIAMONDS } else 
    if i == 39 { CardNumber::ACE_CLUBS } else 
    if i == 40 { CardNumber::KING_CLUBS } else 
    if i == 41 { CardNumber::QUEEN_CLUBS } else 
    if i == 42 { CardNumber::JACK_CLUBS } else 
    if i == 43 { CardNumber::TEN_CLUBS } else 
    if i == 44 { CardNumber::NINE_CLUBS } else 
    if i == 45 { CardNumber::EIGHT_CLUBS } else 
    if i == 46 { CardNumber::SEVEN_CLUBS } else 
    if i == 47 { CardNumber::SIX_CLUBS } else 
    if i == 48 { CardNumber::FIVE_CLUBS } else 
    if i == 49 { CardNumber::FOUR_CLUBS } else 
    if i == 50 { CardNumber::TREY_CLUBS } else 
    if i == 51 { CardNumber::DEUCE_CLUBS } else { CardNumber::BLANK }
}

/// A standard deck of 52 packed cards in a fixed order.
#[derive(Clone, Copy, Debug, Eq, Hash, PartialEq, Structural)]
pub struct Deck;

impl Deck {
    /// The card at a deck position, blank when the position is past the
    /// deck.
    pub fn get(index: usize) -> (r: CKCNumber)
        ensures
            r == spec_deck_card_at(index as int),
    {
        if index == 0 { CardNumber::ACE_SPADES } else 
        if index == 1 { CardNumber::KING_SPADES } else 
        if index == 2 { CardNumber::QUEEN_SPADES } else 
        if index == 3 { CardNumber::JACK_SPADES } else 
        if index == 4 { CardNumber::TEN_SPADES } else 
        if index == 5 { CardNumber::NINE_SPADES } else 
        if index == 6 { CardNumber::EIGHT_SPADES } else 
        if index == 7 { CardNumber::SEVEN_SPADES } else 
        if index == 8 { CardNumber::SIX_SPADES } else 
        if index == 9 { CardNumber::FIVE_SPADES } else 
        if index == 10 { CardNumber::FOUR_SPADES } else 
        if index == 11 { CardNumber::TREY_SPADES } else 
        if index == 12 { CardNumber::DEUCE_SPADES } else 
        if index == 13 { CardNumber::ACE_HEARTS } else 
        if index == 14 { CardNumber::KING_HEARTS } else 
        if index == 15 { CardNumber::QUEEN_HEARTS } else 
        if index == 16 { CardNumber::JACK_HEARTS } else 
        if index == 17 { CardNumber::TEN_HEARTS } else 
        if index == 18 { CardNumber::NINE_HEARTS } else 
        if index == 19 { CardNumber::EIGHT_HEARTS } else 
        if index == 20 { CardNumber::SEVEN_HEARTS } else 
        if index == 21 { CardNumber::SIX_HEARTS } else 
        if index == 22 { CardNumber::FIVE_HEARTS } else 
        if index == 23 { CardNumber::FOUR_HEARTS } else 
        if index == 24 { CardNumber::TREY_HEARTS } else 
        if index == 25 { CardNumber::DEUCE_HEARTS } else 
        if index == 26 { CardNumber::ACE_DIAMONDS } else 
        if index == 27 { CardNumber::KING_DIAMONDS } else 
        if index == 28 { CardNumber::QUEEN_DIAMONDS } else 
        if index == 29 { CardNumber::JACK_DIAMONDS } else 
        if index == 30 { CardNumber::TEN_DIAMONDS } else 
        if index == 31 { CardNumber::NINE_DIAMONDS } else 
        if index == 32 { CardNumber::EIGHT_DIAMONDS } else 
        if index == 33 { CardNumber::SEVEN_DIAMONDS } else 
        if index == 34 { CardNumber::SIX_DIAMONDS } else 
        if index == 35 { CardNumber::FIVE_DIAMONDS } else 
        if index == 36 { CardNumber::FOUR_DIAMONDS } else 
        if index == 37 { CardNumber::TREY_DIAMONDS } else 
        if index == 38 { CardNumber::DEUCE_DIAMONDS } else 
        if index == 39 { CardNumber::ACE_CLUBS } else 
        if index == 40 { CardNumber::KING_CLUBS } else 
        if index == 41 { CardNumber::QUEEN_CLUBS } else 
        if index == 42 { CardNumber::JACK_CLUBS } else 
        if index == 43 { CardNumber::TEN_CLUBS } else 
        if index == 44 { CardNumber::NINE_CLUBS } else 
        if index == 45 { CardNumber::EIGHT_CLUBS } else 
        if index == 46 { CardNumber::SEVEN_CLUBS } else 
        if index == 47 { CardNumber::SIX_CLUBS } else 
        if index == 48 { CardNumber::FIVE_CLUBS } else 
        if index == 49 { CardNumber::FOUR_CLUBS } else 
        if index == 50 { CardNumber::TREY_CLUBS } else 
        if index == 51 { CardNumber::DEUCE_CLUBS } else { CardNumber::BLANK }
    }

    pub fn len() -> (r: usize)
        ensures
            r == DECK_SIZE,
    {
        DECK_SIZE
    }
}

} // verus!
