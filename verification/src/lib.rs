use vstd::prelude::*;

use crate::cards::binary_card::BinaryCard;

pub mod cards;
pub mod deck;
pub mod evaluate;
pub mod games;
pub mod hand_rank;
pub mod lookups;
pub mod parse;

verus! {

/// A `CKCNumber` packs one poker card into 32 bits for rapid hand
/// evaluation:
///
/// ```txt
/// +--------+--------+--------+--------+
/// |mmmbbbbb|bbbbbbbb|SHDCrrrr|xxpppppp|
/// +--------+--------+--------+--------+
///
/// p = prime number of rank (deuce=2, trey=3, four=5, ..., ace=41)
/// r = rank index of card (deuce=0, trey=1, four=2, ..., ace=12)
/// SHDC = one-hot suit flag
/// b = one-hot rank flag
/// m = flags reserved for marking multiples of the same rank
/// ```
pub type CKCNumber = u32;

/// `u32` constants for all 52 cards in a standard poker deck, together
/// with the masks and shifts of the packed layout.
pub struct CardNumber;

impl CardNumber {
    pub const RANK_FLAG_FILTER: u32 = 0x1FFF0000;
    pub const RANK_FLAG_SHIFT: u32 = 16;
    pub const RANK_PRIME_FILTER: u32 = 0b00111111;

    /// Binary filter for the suit flag nibble.
    pub const SUIT_FILTER: u32 = 0xF000;
    pub const SUIT_SHORT_MASK: u32 = 0b1111;
    pub const SUIT_SHIFT: u32 = 12;

    /// These flags give sorting priority when more than one card of a
    /// specific rank is present.
    pub const PAIR: u32 = 536870912;
    pub const TRIPS: u32 = 1073741824;
    pub const QUADS: u32 = 2147483648;
    pub const MULTIPLES_FILTER: u32 = 536870911;

    pub const ACE_SPADES: CKCNumber = 0b010000000000001000110000101001;
    pub const KING_SPADES: CKCNumber = 0b001000000000001000101100100101;
    pub const QUEEN_SPADES: CKCNumber = 0b000100000000001000101000011111;
    pub const JACK_SPADES: CKCNumber = 0b000010000000001000100100011101;
    pub const TEN_SPADES: CKCNumber = 0b000001000000001000100000010111;
    pub const NINE_SPADES: CKCNumber = 0b000000100000001000011100010011;
    pub const EIGHT_SPADES: CKCNumber = 0b000000010000001000011000010001;
    pub const SEVEN_SPADES: CKCNumber = 0b000000001000001000010100001101;
    pub const SIX_SPADES: CKCNumber = 0b000000000100001000010000001011;
    pub const FIVE_SPADES: CKCNumber = 0b000000000010001000001100000111;
    pub const FOUR_SPADES: CKCNumber = 0b000000000001001000001000000101;
    pub const TREY_SPADES: CKCNumber = 0b000000000000101000000100000011;
    pub const DEUCE_SPADES: CKCNumber = 0b000000000000011000000000000010;
    pub const ACE_HEARTS: CKCNumber = 0b010000000000000100110000101001;
    pub const KING_HEARTS: CKCNumber = 0b001000000000000100101100100101;
    pub const QUEEN_HEARTS: CKCNumber = 0b000100000000000100101000011111;
    pub const JACK_HEARTS: CKCNumber = 0b000010000000000100100100011101;
    pub const TEN_HEARTS: CKCNumber = 0b000001000000000100100000010111;
    pub const NINE_HEARTS: CKCNumber = 0b000000100000000100011100010011;
    pub const EIGHT_HEARTS: CKCNumber = 0b000000010000000100011000010001;
    pub const SEVEN_HEARTS: CKCNumber = 0b000000001000000100010100001101;
    pub const SIX_HEARTS: CKCNumber = 0b000000000100000100010000001011;
    pub const FIVE_HEARTS: CKCNumber = 0b000000000010000100001100000111;
    pub const FOUR_HEARTS: CKCNumber = 0b000000000001000100001000000101;
    pub const TREY_HEARTS: CKCNumber = 0b000000000000100100000100000011;
    pub const DEUCE_HEARTS: CKCNumber = 0b000000000000010100000000000010;
    pub const ACE_DIAMONDS: CKCNumber = 0b010000000000000010110000101001;
    pub const KING_DIAMONDS: CKCNumber = 0b001000000000000010101100100101;
    pub const QUEEN_DIAMONDS: CKCNumber = 0b000100000000000010101000011111;
    pub const JACK_DIAMONDS: CKCNumber = 0b000010000000000010100100011101;
    pub const TEN_DIAMONDS: CKCNumber = 0b000001000000000010100000010111;
    pub const NINE_DIAMONDS: CKCNumber = 0b000000100000000010011100010011;
    pub const EIGHT_DIAMONDS: CKCNumber = 0b000000010000000010011000010001;
    pub const SEVEN_DIAMONDS: CKCNumber = 0b000000001000000010010100001101;
    pub const SIX_DIAMONDS: CKCNumber = 0b000000000100000010010000001011;
    pub const FIVE_DIAMONDS: CKCNumber = 0b000000000010000010001100000111;
    pub const FOUR_DIAMONDS: CKCNumber = 0b000000000001000010001000000101;
    pub const TREY_DIAMONDS: CKCNumber = 0b000000000000100010000100000011;
    pub const DEUCE_DIAMONDS: CKCNumber = 0b000000000000010010000000000010;
    pub const ACE_CLUBS: CKCNumber = 0b010000000000000001110000101001;
    pub const KING_CLUBS: CKCNumber = 0b001000000000000001101100100101;
    pub const QUEEN_CLUBS: CKCNumber = 0b000100000000000001101000011111;
    pub const JACK_CLUBS: CKCNumber = 0b000010000000000001100100011101;
    pub const TEN_CLUBS: CKCNumber = 0b000001000000000001100000010111;
    pub const NINE_CLUBS: CKCNumber = 0b000000100000000001011100010011;
    pub const EIGHT_CLUBS: CKCNumber = 0b000000010000000001011000010001;
    pub const SEVEN_CLUBS: CKCNumber = 0b000000001000000001010100001101;
    pub const SIX_CLUBS: CKCNumber = 0b000000000100000001010000001011;
    pub const FIVE_CLUBS: CKCNumber = 0b000000000010000001001100000111;
    pub const FOUR_CLUBS: CKCNumber = 0b000000000001000001001000000101;
    pub const TREY_CLUBS: CKCNumber = 0b000000000000100001000100000011;
    pub const DEUCE_CLUBS: CKCNumber = 0b000000000000010001000000000010;
    pub const BLANK: CKCNumber = 0;
}

/// True exactly of the 52 card constants: any other bit pattern is not a
/// legal packed card.
pub open spec fn is_legal_card(c: CKCNumber) -> bool {
    c == CardNumber::ACE_SPADES ||
    c == CardNumber::KING_SPADES ||
    c == CardNumber::QUEEN_SPADES ||
    c == CardNumber::JACK_SPADES ||
    c == CardNumber::TEN_SPADES ||
    c == CardNumber::NINE_SPADES ||
    c == CardNumber::EIGHT_SPADES ||
    c == CardNumber::SEVEN_SPADES ||
    c == CardNumber::SIX_SPADES ||
    c == CardNumber::FIVE_SPADES ||
    c == CardNumber::FOUR_SPADES ||
    c == CardNumber::TREY_SPADES ||
    c == CardNumber::DEUCE_SPADES ||
    c == CardNumber::ACE_HEARTS ||
    c == CardNumber::KING_HEARTS ||
    c == CardNumber::QUEEN_HEARTS ||
    c == CardNumber::JACK_HEARTS ||
    c == CardNumber::TEN_HEARTS ||
    c == CardNumber::NINE_HEARTS ||
    c == CardNumber::EIGHT_HEARTS ||
    c == CardNumber::SEVEN_HEARTS ||
    c == CardNumber::SIX_HEARTS ||
    c == CardNumber::FIVE_HEARTS ||
    c == CardNumber::FOUR_HEARTS ||
    c == CardNumber::TREY_HEARTS ||
    c == CardNumber::DEUCE_HEARTS ||
    c == CardNumber::ACE_DIAMONDS ||
    c == CardNumber::KING_DIAMONDS ||
    c == CardNumber::QUEEN_DIAMONDS ||
    c == CardNumber::JACK_DIAMONDS ||
    c == CardNumber::TEN_DIAMONDS ||
    c == CardNumber::NINE_DIAMONDS ||
    c == CardNumber::EIGHT_DIAMONDS ||
    c == CardNumber::SEVEN_DIAMONDS ||
    c == CardNumber::SIX_DIAMONDS ||
    c == CardNumber::FIVE_DIAMONDS ||
    c == CardNumber::FOUR_DIAMONDS ||
    c == CardNumber::TREY_DIAMONDS ||
    c == CardNumber::DEUCE_DIAMONDS ||
    c == CardNumber::ACE_CLUBS ||
    c == CardNumber::KING_CLUBS ||
    c == CardNumber::QUEEN_CLUBS ||
    c == CardNumber::JACK_CLUBS ||
    c == CardNumber::TEN_CLUBS ||
    c == CardNumber::NINE_CLUBS ||
    c == CardNumber::EIGHT_CLUBS ||
    c == CardNumber::SEVEN_CLUBS ||
    c == CardNumber::SIX_CLUBS ||
    c == CardNumber::FIVE_CLUBS ||
    c == CardNumber::FOUR_CLUBS ||
    c == CardNumber::TREY_CLUBS ||
    c == CardNumber::DEUCE_CLUBS
}

/// What `filter` returns: a legal card passes through, everything else
/// collapses to blank.
pub open spec fn spec_filter(c: CKCNumber) -> CKCNumber {
    if is_legal_card(c) { c } else { CardNumber::BLANK }
}

impl CardNumber {
    /// Maps each of the 52 legal card constants to itself and every other
    /// value to `BLANK`. This is the sole validity gate of the encoding.
    pub fn filter(number: CKCNumber) -> (r: CKCNumber)
        ensures
            r == spec_filter(number),
    {
        if number == CardNumber::ACE_SPADES
            || number == CardNumber::KING_SPADES
            || number == CardNumber::QUEEN_SPADES
            || number == CardNumber::JACK_SPADES
            || number == CardNumber::TEN_SPADES
            || number == CardNumber::NINE_SPADES
            || number == CardNumber::EIGHT_SPADES
            || number == CardNumber::SEVEN_SPADES
            || number == CardNumber::SIX_SPADES
            || number == CardNumber::FIVE_SPADES
            || number == CardNumber::FOUR_SPADES
            || number == CardNumber::TREY_SPADES
            || number == CardNumber::DEUCE_SPADES
            || number == CardNumber::ACE_HEARTS
            || number == CardNumber::KING_HEARTS
            || number == CardNumber::QUEEN_HEARTS
            || number == CardNumber::JACK_HEARTS
            || number == CardNumber::TEN_HEARTS
            || number == CardNumber::NINE_HEARTS
            || number == CardNumber::EIGHT_HEARTS
            || number == CardNumber::SEVEN_HEARTS
            || number == CardNumber::SIX_HEARTS
            || number == CardNumber::FIVE_HEARTS
            || number == CardNumber::FOUR_HEARTS
            || number == CardNumber::TREY_HEARTS
            || number == CardNumber::DEUCE_HEARTS
            || number == CardNumber::ACE_DIAMONDS
            || number == CardNumber::KING_DIAMONDS
            || number == CardNumber::QUEEN_DIAMONDS
            || number == CardNumber::JACK_DIAMONDS
            || number == CardNumber::TEN_DIAMONDS
            || number == CardNumber::NINE_DIAMONDS
            || number == CardNumber::EIGHT_DIAMONDS
            || number == CardNumber::SEVEN_DIAMONDS
            || number == CardNumber::SIX_DIAMONDS
            || number == CardNumber::FIVE_DIAMONDS
            || number == CardNumber::FOUR_DIAMONDS
            || number == CardNumber::TREY_DIAMONDS
            || number == CardNumber::DEUCE_DIAMONDS
            || number == CardNumber::ACE_CLUBS
            || number == CardNumber::KING_CLUBS
            || number == CardNumber::QUEEN_CLUBS
            || number == CardNumber::JACK_CLUBS
            || number == CardNumber::TEN_CLUBS
            || number == CardNumber::NINE_CLUBS
            || number == CardNumber::EIGHT_CLUBS
            || number == CardNumber::SEVEN_CLUBS
            || number == CardNumber::SIX_CLUBS
            || number == CardNumber::FIVE_CLUBS
            || number == CardNumber::FOUR_CLUBS
            || number == CardNumber::TREY_CLUBS
            || number == CardNumber::DEUCE_CLUBS {
            number
        } else {
            CardNumber::BLANK
        }
    }
}


/// The thirteen card ranks, ace high, plus a blank marker for anything
/// that is not a rank.
#[derive(Clone, Copy, Debug, Eq, Hash, PartialEq, Structural)]
pub enum CardRank {
    ACE,
    KING,
    QUEEN,
    JACK,
    TEN,
    NINE,
    EIGHT,
    SEVEN,
    SIX,
    FIVE,
    FOUR,
    THREE,
    TWO,
    BLANK,
}

pub open spec fn spec_rank_from_char(c: char) -> CardRank {
    match c {
        'A' | 'a' => CardRank::ACE,
        'K' | 'k' => CardRank::KING,
        'Q' | 'q' => CardRank::QUEEN,
        'J' | 'j' => CardRank::JACK,
        'T' | 't' | '0' => CardRank::TEN,
        '9' => CardRank::NINE,
        '8' => CardRank::EIGHT,
        '7' => CardRank::SEVEN,
        '6' => CardRank::SIX,
        '5' => CardRank::FIVE,
        '4' => CardRank::FOUR,
        '3' => CardRank::THREE,
        '2' => CardRank::TWO,
        _ => CardRank::BLANK,
    }
}

/// Rank index used by the packed layout: deuce is 0, ace is 12, blank is 0.
pub open spec fn spec_rank_number(r: CardRank) -> u32 {
    match r {
        CardRank::ACE => 12,
        CardRank::KING => 11,
        CardRank::QUEEN => 10,
        CardRank::JACK => 9,
        CardRank::TEN => 8,
        CardRank::NINE => 7,
        CardRank::EIGHT => 6,
        CardRank::SEVEN => 5,
        CardRank::SIX => 4,
        CardRank::FIVE => 3,
        CardRank::FOUR => 2,
        CardRank::THREE => 1,
        _ => 0,
    }
}

/// The prime number the packed layout assigns to each rank; the product of
/// five cards' primes identifies their rank multiset.
pub open spec fn spec_rank_prime_of(r: CardRank) -> u32 {
    match r {
        CardRank::ACE => 41,
        CardRank::KING => 37,
        CardRank::QUEEN => 31,
        CardRank::JACK => 29,
        CardRank::TEN => 23,
        CardRank::NINE => 19,
        CardRank::EIGHT => 17,
        CardRank::SEVEN => 13,
        CardRank::SIX => 11,
        CardRank::FIVE => 7,
        CardRank::FOUR => 5,
        CardRank::THREE => 3,
        CardRank::TWO => 2,
        CardRank::BLANK => 0,
    }
}

/// The face value of a rank, deuce 2 up to ace 14, blank 0. Used by the
/// starting-hand arithmetic on two-card hands.
pub open spec fn spec_rank_face_value(r: CardRank) -> u32 {
    match r {
        CardRank::ACE => 14,
        CardRank::KING => 13,
        CardRank::QUEEN => 12,
        CardRank::JACK => 11,
        CardRank::TEN => 10,
        CardRank::NINE => 9,
        CardRank::EIGHT => 8,
        CardRank::SEVEN => 7,
        CardRank::SIX => 6,
        CardRank::FIVE => 5,
        CardRank::FOUR => 4,
        CardRank::THREE => 3,
        CardRank::TWO => 2,
        CardRank::BLANK => 0,
    }
}

impl CardRank {
    pub fn from_char(index: char) -> (r: CardRank)
        ensures
            r == spec_rank_from_char(index),
    {
        match index {
            'A' | 'a' => CardRank::ACE,
            'K' | 'k' => CardRank::KING,
            'Q' | 'q' => CardRank::QUEEN,
            'J' | 'j' => CardRank::JACK,
            'T' | 't' | '0' => CardRank::TEN,
            '9' => CardRank::NINE,
            '8' => CardRank::EIGHT,
            '7' => CardRank::SEVEN,
            '6' => CardRank::SIX,
            '5' => CardRank::FIVE,
            '4' => CardRank::FOUR,
            '3' => CardRank::THREE,
            '2' => CardRank::TWO,
            _ => CardRank::BLANK,
        }
    }

    pub fn number(self) -> (r: u32)
        ensures
            r == spec_rank_number(self),
            r <= 12,
    {
        match self {
            CardRank::ACE => 12,
            CardRank::KING => 11,
            CardRank::QUEEN => 10,
            CardRank::JACK => 9,
            CardRank::TEN => 8,
            CardRank::NINE => 7,
            CardRank::EIGHT => 6,
            CardRank::SEVEN => 5,
            CardRank::SIX => 4,
            CardRank::FIVE => 3,
            CardRank::FOUR => 2,
            CardRank::THREE => 1,
            _ => 0,
        }
    }

    pub fn face_value(self) -> (r: u32)
        ensures
            r == spec_rank_face_value(self),
    {
        match self {
            CardRank::ACE => 14,
            CardRank::KING => 13,
            CardRank::QUEEN => 12,
            CardRank::JACK => 11,
            CardRank::TEN => 10,
            CardRank::NINE => 9,
            CardRank::EIGHT => 8,
            CardRank::SEVEN => 7,
            CardRank::SIX => 6,
            CardRank::FIVE => 5,
            CardRank::FOUR => 4,
            CardRank::THREE => 3,
            CardRank::TWO => 2,
            CardRank::BLANK => 0,
        }
    }

    fn bits(self) -> (r: u32)
        ensures
            r == spec_rank_bits_of(self),
    {
        1u32 << (16 + self.number())
    }

    fn prime(self) -> (r: u32)
        ensures
            r == spec_rank_prime_of(self),
    {
        match self {
            CardRank::ACE => 41,
            CardRank::KING => 37,
            CardRank::QUEEN => 31,
            CardRank::JACK => 29,
            CardRank::TEN => 23,
            CardRank::NINE => 19,
            CardRank::EIGHT => 17,
            CardRank::SEVEN => 13,
            CardRank::SIX => 11,
            CardRank::FIVE => 7,
            CardRank::FOUR => 5,
            CardRank::THREE => 3,
            CardRank::TWO => 2,
            CardRank::BLANK => 0,
        }
    }

    fn shift8(self) -> (r: u32)
        ensures
            r == spec_rank_number(self) << 8,
    {
        self.number() << 8
    }
}

pub open spec fn spec_rank_bits_of(r: CardRank) -> u32 {
    1u32 << ((16 + spec_rank_number(r)) as u32)
}

/// The four card suits plus a blank marker.
#[derive(Clone, Copy, Debug, Eq, Hash, PartialEq, Structural)]
pub enum CardSuit {
    SPADES,
    HEARTS,
    DIAMONDS,
    CLUBS,
    BLANK,
}

pub open spec fn spec_suit_signature(s: CardSuit) -> u32 {
    match s {
        CardSuit::SPADES => 0x8000,
        CardSuit::HEARTS => 0x4000,
        CardSuit::DIAMONDS => 0x2000,
        CardSuit::CLUBS => 0x1000,
        CardSuit::BLANK => 0,
    }
}

pub open spec fn spec_suit_from_char(c: char) -> CardSuit {
    match c {
        '\u{2664}' | '\u{2660}' | 'S' | 's' => CardSuit::SPADES,
        '\u{2661}' | '\u{2665}' | 'H' | 'h' => CardSuit::HEARTS,
        '\u{2662}' | '\u{2666}' | 'D' | 'd' => CardSuit::DIAMONDS,
        '\u{2667}' | '\u{2663}' | 'C' | 'c' => CardSuit::CLUBS,
        _ => CardSuit::BLANK,
    }
}

impl CardSuit {
    /// The one-hot suit nibble this suit occupies inside a packed card.
    pub fn binary_signature(&self) -> (r: u32)
        ensures
            r == spec_suit_signature(*self),
    {
        match self {
            CardSuit::SPADES => 0x8000,
            CardSuit::HEARTS => 0x4000,
            CardSuit::DIAMONDS => 0x2000,
            CardSuit::CLUBS => 0x1000,
            CardSuit::BLANK => 0,
        }
    }

    pub fn from_char(symbol: char) -> (r: CardSuit)
        ensures
            r == spec_suit_from_char(symbol),
    {
        match symbol {
            '\u{2664}' | '\u{2660}' | 'S' | 's' => CardSuit::SPADES,
            '\u{2661}' | '\u{2665}' | 'H' | 'h' => CardSuit::HEARTS,
            '\u{2662}' | '\u{2666}' | 'D' | 'd' => CardSuit::DIAMONDS,
            '\u{2667}' | '\u{2663}' | 'C' | 'c' => CardSuit::CLUBS,
            _ => CardSuit::BLANK,
        }
    }
}

/// The errors reported when a set of cards cannot form the hand a caller
/// asked for.
#[derive(Clone, Copy, Debug, Eq, PartialEq, Structural)]
pub enum HandError {
    BlankCard,
    DuplicateCard,
    Incomplete,
    InvalidBinaryFormat,
    InvalidCard,
    InvalidCardCount,
    InvalidIndex,
    NotEnoughCards,
    TooManyCards,
}


/// The packed card encoded by a rank and a suit; an unrecognized pair
/// collapses to blank through the validity gate.
pub open spec fn spec_create(rank: CardRank, suit: CardSuit) -> CKCNumber {
    spec_filter(
        spec_rank_bits_of(rank) | spec_rank_prime_of(rank) | (spec_rank_number(rank) << 8)
            | spec_suit_signature(suit),
    )
}

/// A pair of blanks composes to a bare rank flag, which the validity gate
/// collapses to the blank card.
pub proof fn lemma_blank_create()
    ensures
        spec_create(CardRank::BLANK, CardSuit::BLANK) == 0,
{
    assert((1u32 << ((16 + 0) as u32)) | 0u32 | (0u32 << 8) | 0u32 == 0x10000u32) by (bit_vector);
    assert(!is_legal_card(0x10000u32));
}

/// Composes the packed layout from a rank and a suit and passes it through
/// the validity gate, so only real cards come out.
pub fn create_card(rank: CardRank, suit: CardSuit) -> (r: CKCNumber)
    ensures
        r == spec_create(rank, suit),
{
    CardNumber::filter(rank.bits() | rank.prime() | rank.shift8() | suit.binary_signature())
}


// =====================================================================
// Reading and writing the packed layout.
// =====================================================================

/// The one-hot rank flag of a packed card, still in the high bits.
pub open spec fn spec_rank_flag(c: CKCNumber) -> u32 {
    c & CardNumber::RANK_FLAG_FILTER
}

/// The one-hot rank flag moved down to the low 13 bits.
pub open spec fn spec_rank_bit(c: CKCNumber) -> u32 {
    spec_rank_flag(c) >> CardNumber::RANK_FLAG_SHIFT
}

/// The one-hot suit nibble of a packed card, still in place.
pub open spec fn spec_suit_flag(c: CKCNumber) -> u32 {
    c & CardNumber::SUIT_FILTER
}

/// The one-hot suit nibble moved down to the low 4 bits.
pub open spec fn spec_suit_bit(c: CKCNumber) -> u32 {
    spec_suit_flag(c) >> CardNumber::SUIT_SHIFT
}

/// The rank prime stored in the low six bits of a packed card.
pub open spec fn spec_rank_prime(c: CKCNumber) -> u32 {
    c & CardNumber::RANK_PRIME_FILTER
}

/// The rank a packed card's rank flag names.
pub open spec fn spec_card_rank(c: CKCNumber) -> CardRank {
    if spec_rank_bit(c) == 4096 { CardRank::ACE }
    else if spec_rank_bit(c) == 2048 { CardRank::KING }
    else if spec_rank_bit(c) == 1024 { CardRank::QUEEN }
    else if spec_rank_bit(c) == 512 { CardRank::JACK }
    else if spec_rank_bit(c) == 256 { CardRank::TEN }
    else if spec_rank_bit(c) == 128 { CardRank::NINE }
    else if spec_rank_bit(c) == 64 { CardRank::EIGHT }
    else if spec_rank_bit(c) == 32 { CardRank::SEVEN }
    else if spec_rank_bit(c) == 16 { CardRank::SIX }
    else if spec_rank_bit(c) == 8 { CardRank::FIVE }
    else if spec_rank_bit(c) == 4 { CardRank::FOUR }
    else if spec_rank_bit(c) == 2 { CardRank::THREE }
    else if spec_rank_bit(c) == 1 { CardRank::TWO }
    else { CardRank::BLANK }
}

/// The suit a packed card's suit flag names.
pub open spec fn spec_card_suit(c: CKCNumber) -> CardSuit {
    if spec_suit_bit(c) == 8 { CardSuit::SPADES }
    else if spec_suit_bit(c) == 4 { CardSuit::HEARTS }
    else if spec_suit_bit(c) == 2 { CardSuit::DIAMONDS }
    else if spec_suit_bit(c) == 1 { CardSuit::CLUBS }
    else { CardSuit::BLANK }
}

/// The suit one step down the cycle spades, hearts, diamonds, clubs.
pub open spec fn spec_next_suit(c: CKCNumber) -> CardSuit {
    match spec_card_suit(c) {
        CardSuit::SPADES => CardSuit::HEARTS,
        CardSuit::HEARTS => CardSuit::DIAMONDS,
        CardSuit::DIAMONDS => CardSuit::CLUBS,
        CardSuit::CLUBS => CardSuit::SPADES,
        CardSuit::BLANK => CardSuit::BLANK,
    }
}

/// The packed card a single-card set stands for, blank when the set is
/// not a single legal card. Spelled over the literal masks so callers can
/// evaluate it on concrete sets.
pub open spec fn spec_from_binary_card(bc: BinaryCard) -> CKCNumber {
    if bc == 0x8000000000000u64 { CardNumber::ACE_SPADES } else 
    if bc == 0x4000000000000u64 { CardNumber::KING_SPADES } else 
    if bc == 0x2000000000000u64 { CardNumber::QUEEN_SPADES } else 
    if bc == 0x1000000000000u64 { CardNumber::JACK_SPADES } else 
    if bc == 0x800000000000u64 { CardNumber::TEN_SPADES } else 
    if bc == 0x400000000000u64 { CardNumber::NINE_SPADES } else 
    if bc == 0x200000000000u64 { CardNumber::EIGHT_SPADES } else 
    if bc == 0x100000000000u64 { CardNumber::SEVEN_SPADES } else 
    if bc == 0x80000000000u64 { CardNumber::SIX_SPADES } else 
    if bc == 0x40000000000u64 { CardNumber::FIVE_SPADES } else 
    if bc == 0x20000000000u64 { CardNumber::FOUR_SPADES } else 
    if bc == 0x10000000000u64 { CardNumber::TREY_SPADES } else 
    if bc == 0x8000000000u64 { CardNumber::DEUCE_SPADES } else 
    if bc == 0x4000000000u64 { CardNumber::ACE_HEARTS } else 
    if bc == 0x2000000000u64 { CardNumber::KING_HEARTS } else 
    if bc == 0x1000000000u64 { CardNumber::QUEEN_HEARTS } else 
    if bc == 0x800000000u64 { CardNumber::JACK_HEARTS } else 
    if bc == 0x400000000u64 { CardNumber::TEN_HEARTS } else 
    if bc == 0x200000000u64 { CardNumber::NINE_HEARTS } else 
    if bc == 0x100000000u64 { CardNumber::EIGHT_HEARTS } else 
    if bc == 0x80000000u64 { CardNumber::SEVEN_HEARTS } else 
    if bc == 0x40000000u64 { CardNumber::SIX_HEARTS } else 
    if bc == 0x20000000u64 { CardNumber::FIVE_HEARTS } else 
    if bc == 0x10000000u64 { CardNumber::FOUR_HEARTS } else 
    if bc == 0x8000000u64 { CardNumber::TREY_HEARTS } else 
    if bc == 0x4000000u64 { CardNumber::DEUCE_HEARTS } else 
    if bc == 0x2000000u64 { CardNumber::ACE_DIAMONDS } else 
    if bc == 0x1000000u64 { CardNumber::KING_DIAMONDS } else 
    if bc == 0x800000u64 { CardNumber::QUEEN_DIAMONDS } else 
    if bc == 0x400000u64 { CardNumber::JACK_DIAMONDS } else 
    if bc == 0x200000u64 { CardNumber::TEN_DIAMONDS } else 
    if bc == 0x100000u64 { CardNumber::NINE_DIAMONDS } else 
    if bc == 0x80000u64 { CardNumber::EIGHT_DIAMONDS } else 
    if bc == 0x40000u64 { CardNumber::SEVEN_DIAMONDS } else 
    if bc == 0x20000u64 { CardNumber::SIX_DIAMONDS } else 
    if bc == 0x10000u64 { CardNumber::FIVE_DIAMONDS } else 
    if bc == 0x8000u64 { CardNumber::FOUR_DIAMONDS } else 
    if bc == 0x4000u64 { CardNumber::TREY_DIAMONDS } else 
    if bc == 0x2000u64 { CardNumber::DEUCE_DIAMONDS } else 
    if bc == 0x1000u64 { CardNumber::ACE_CLUBS } else 
    if bc == 0x800u64 { CardNumber::KING_CLUBS } else 
    if bc == 0x400u64 { CardNumber::QUEEN_CLUBS } else 
    if bc == 0x200u64 { CardNumber::JACK_CLUBS } else 
    if bc == 0x100u64 { CardNumber::TEN_CLUBS } else 
    if bc == 0x80u64 { CardNumber::NINE_CLUBS } else 
    if bc == 0x40u64 { CardNumber::EIGHT_CLUBS } else 
    if bc == 0x20u64 { CardNumber::SEVEN_CLUBS } else 
    if bc == 0x10u64 { CardNumber::SIX_CLUBS } else 
    if bc == 0x8u64 { CardNumber::FIVE_CLUBS } else 
    if bc == 0x4u64 { CardNumber::FOUR_CLUBS } else 
    if bc == 0x2u64 { CardNumber::TREY_CLUBS } else 
    if bc == 0x1u64 { CardNumber::DEUCE_CLUBS } else { CardNumber::BLANK }
}

/// The operations every packed card offers. `CKCNumber` is the one
/// implementor; the trait keeps the card operations in a namespace of
/// their own.
pub trait PokerCard: Sized {
    /// The packed bits this card stands for.
    spec fn spec_card(&self) -> u32;

    fn as_u32(&self) -> (r: u32)
        ensures
            r == self.spec_card(),
    ;

    fn is_blank(&self) -> (r: bool)
        ensures
            r == (self.spec_card() == CardNumber::BLANK),
    ;

    /// Composes a packed card from a rank and a suit.
    fn create(rank: CardRank, suit: CardSuit) -> (r: CKCNumber)
        ensures
            r == spec_create(rank, suit),
    ;

    /// Lets a legal card through and collapses everything else to blank.
    fn filter(number: CKCNumber) -> (r: CKCNumber)
        ensures
            r == spec_filter(number),
    ;

    /// The packed card matching a single-card 52-bit set.
    fn from_binary_card(bc: BinaryCard) -> (r: CKCNumber)
        ensures
            r == spec_from_binary_card(bc),
    ;

    /// Parses a two-character card index such as the ace of spades.
    fn from_index(index: &str) -> (r: CKCNumber)
        ensures
            r == crate::parse::spec_card_from_index(index@),
    ;

    fn get_card_rank(&self) -> (r: CardRank)
        ensures
            r == spec_card_rank(self.spec_card()),
    ;

    fn get_card_suit(&self) -> (r: CardSuit)
        ensures
            r == spec_card_suit(self.spec_card()),
    ;

    fn get_rank_bit(&self) -> (r: u32)
        ensures
            r == spec_rank_bit(self.spec_card()),
    ;

    fn get_rank_char(&self) -> (r: char)
        ensures
            r == spec_rank_char(self.spec_card()),
    ;

    fn get_rank_flag(&self) -> (r: u32)
        ensures
            r == spec_rank_flag(self.spec_card()),
    ;

    fn get_rank_prime(&self) -> (r: u32)
        ensures
            r == spec_rank_prime(self.spec_card()),
            r < 64,
    ;

    fn get_suit_bit(&self) -> (r: u32)
        ensures
            r == spec_suit_bit(self.spec_card()),
    ;

    fn get_suit_char(&self) -> (r: char)
        ensures
            r == spec_suit_char(self.spec_card()),
    ;

    fn get_suit_letter(&self) -> (r: char)
        ensures
            r == spec_suit_letter(self.spec_card()),
    ;

    fn get_suit_flag(&self) -> (r: u32)
        ensures
            r == spec_suit_flag(self.spec_card()),
    ;

    /// Marks the card as one of a pair for sorting purposes.
    fn flag_as_pair(&self) -> (r: CKCNumber)
        ensures
            r == (self.spec_card() | CardNumber::PAIR),
    ;

    fn flag_as_trips(&self) -> (r: CKCNumber)
        ensures
            r == (self.spec_card() | CardNumber::TRIPS),
    ;

    fn flag_as_quads(&self) -> (r: CKCNumber)
        ensures
            r == (self.spec_card() | CardNumber::QUADS),
    ;

    fn next_suit(&self) -> (r: CardSuit)
        ensures
            r == spec_next_suit(self.spec_card()),
    ;

    fn strip_multiples_flags(&self) -> (r: CKCNumber)
        ensures
            r == (self.spec_card() & CardNumber::MULTIPLES_FILTER),
    ;
}

/// The character that names a card's rank, an underscore for a blank.
pub open spec fn spec_rank_char(c: CKCNumber) -> char {
    match spec_card_rank(c) {
        CardRank::ACE => 'A',
        CardRank::KING => 'K',
        CardRank::QUEEN => 'Q',
        CardRank::JACK => 'J',
        CardRank::TEN => 'T',
        CardRank::NINE => '9',
        CardRank::EIGHT => '8',
        CardRank::SEVEN => '7',
        CardRank::SIX => '6',
        CardRank::FIVE => '5',
        CardRank::FOUR => '4',
        CardRank::THREE => '3',
        CardRank::TWO => '2',
        CardRank::BLANK => '_',
    }
}

/// The symbol that names a card's suit, an underscore for a blank.
pub open spec fn spec_suit_char(c: CKCNumber) -> char {
    match spec_card_suit(c) {
        CardSuit::SPADES => '\u{2660}',
        CardSuit::HEARTS => '\u{2665}',
        CardSuit::DIAMONDS => '\u{2666}',
        CardSuit::CLUBS => '\u{2663}',
        CardSuit::BLANK => '_',
    }
}

/// The letter that names a card's suit, an underscore for a blank.
pub open spec fn spec_suit_letter(c: CKCNumber) -> char {
    match spec_card_suit(c) {
        CardSuit::SPADES => 'S',
        CardSuit::HEARTS => 'H',
        CardSuit::DIAMONDS => 'D',
        CardSuit::CLUBS => 'C',
        CardSuit::BLANK => '_',
    }
}

impl PokerCard for CKCNumber {
    open spec fn spec_card(&self) -> u32 {
        *self
    }

    fn as_u32(&self) -> (r: u32) {
        *self
    }

    fn is_blank(&self) -> (r: bool) {
        *self == CardNumber::BLANK
    }

    fn create(rank: CardRank, suit: CardSuit) -> (r: CKCNumber) {
        create_card(rank, suit)
    }

    fn filter(number: CKCNumber) -> (r: CKCNumber) {
        CardNumber::filter(number)
    }

    fn from_binary_card(bc: BinaryCard) -> (r: CKCNumber) {
        if bc == 0x8000000000000u64 { CardNumber::ACE_SPADES } else 
        if bc == 0x4000000000000u64 { CardNumber::KING_SPADES } else 
        if bc == 0x2000000000000u64 { CardNumber::QUEEN_SPADES } else 
        if bc == 0x1000000000000u64 { CardNumber::JACK_SPADES } else 
        if bc == 0x800000000000u64 { CardNumber::TEN_SPADES } else 
        if bc == 0x400000000000u64 { CardNumber::NINE_SPADES } else 
        if bc == 0x200000000000u64 { CardNumber::EIGHT_SPADES } else 
        if bc == 0x100000000000u64 { CardNumber::SEVEN_SPADES } else 
        if bc == 0x80000000000u64 { CardNumber::SIX_SPADES } else 
        if bc == 0x40000000000u64 { CardNumber::FIVE_SPADES } else 
        if bc == 0x20000000000u64 { CardNumber::FOUR_SPADES } else 
        if bc == 0x10000000000u64 { CardNumber::TREY_SPADES } else 
        if bc == 0x8000000000u64 { CardNumber::DEUCE_SPADES } else 
        if bc == 0x4000000000u64 { CardNumber::ACE_HEARTS } else 
        if bc == 0x2000000000u64 { CardNumber::KING_HEARTS } else 
        if bc == 0x1000000000u64 { CardNumber::QUEEN_HEARTS } else 
        if bc == 0x800000000u64 { CardNumber::JACK_HEARTS } else 
        if bc == 0x400000000u64 { CardNumber::TEN_HEARTS } else 
        if bc == 0x200000000u64 { CardNumber::NINE_HEARTS } else 
        if bc == 0x100000000u64 { CardNumber::EIGHT_HEARTS } else 
        if bc == 0x80000000u64 { CardNumber::SEVEN_HEARTS } else 
        if bc == 0x40000000u64 { CardNumber::SIX_HEARTS } else 
        if bc == 0x20000000u64 { CardNumber::FIVE_HEARTS } else 
        if bc == 0x10000000u64 { CardNumber::FOUR_HEARTS } else 
        if bc == 0x8000000u64 { CardNumber::TREY_HEARTS } else 
        if bc == 0x4000000u64 { CardNumber::DEUCE_HEARTS } else 
        if bc == 0x2000000u64 { CardNumber::ACE_DIAMONDS } else 
        if bc == 0x1000000u64 { CardNumber::KING_DIAMONDS } else 
        if bc == 0x800000u64 { CardNumber::QUEEN_DIAMONDS } else 
        if bc == 0x400000u64 { CardNumber::JACK_DIAMONDS } else 
        if bc == 0x200000u64 { CardNumber::TEN_DIAMONDS } else 
        if bc == 0x100000u64 { CardNumber::NINE_DIAMONDS } else 
        if bc == 0x80000u64 { CardNumber::EIGHT_DIAMONDS } else 
        if bc == 0x40000u64 { CardNumber::SEVEN_DIAMONDS } else 
        if bc == 0x20000u64 { CardNumber::SIX_DIAMONDS } else 
        if bc == 0x10000u64 { CardNumber::FIVE_DIAMONDS } else 
        if bc == 0x8000u64 { CardNumber::FOUR_DIAMONDS } else 
        if bc == 0x4000u64 { CardNumber::TREY_DIAMONDS } else 
        if bc == 0x2000u64 { CardNumber::DEUCE_DIAMONDS } else 
        if bc == 0x1000u64 { CardNumber::ACE_CLUBS } else 
        if bc == 0x800u64 { CardNumber::KING_CLUBS } else 
        if bc == 0x400u64 { CardNumber::QUEEN_CLUBS } else 
        if bc == 0x200u64 { CardNumber::JACK_CLUBS } else 
        if bc == 0x100u64 { CardNumber::TEN_CLUBS } else 
        if bc == 0x80u64 { CardNumber::NINE_CLUBS } else 
        if bc == 0x40u64 { CardNumber::EIGHT_CLUBS } else 
        if bc == 0x20u64 { CardNumber::SEVEN_CLUBS } else 
        if bc == 0x10u64 { CardNumber::SIX_CLUBS } else 
        if bc == 0x8u64 { CardNumber::FIVE_CLUBS } else 
        if bc == 0x4u64 { CardNumber::FOUR_CLUBS } else 
        if bc == 0x2u64 { CardNumber::TREY_CLUBS } else 
        if bc == 0x1u64 { CardNumber::DEUCE_CLUBS } else { CardNumber::BLANK }
    }

    fn from_index(index: &str) -> (r: CKCNumber) {
        let (rank, suit) = crate::parse::get_rank_and_suit(index);
        proof {
            lemma_blank_create();
        }
        create_card(rank, suit)
    }

    fn get_card_rank(&self) -> (r: CardRank) {
        match self.get_rank_bit() {
            4096 => CardRank::ACE,
            2048 => CardRank::KING,
            1024 => CardRank::QUEEN,
            512 => CardRank::JACK,
            256 => CardRank::TEN,
            128 => CardRank::NINE,
            64 => CardRank::EIGHT,
            32 => CardRank::SEVEN,
            16 => CardRank::SIX,
            8 => CardRank::FIVE,
            4 => CardRank::FOUR,
            2 => CardRank::THREE,
            1 => CardRank::TWO,
            _ => CardRank::BLANK,
        }
    }

    fn get_card_suit(&self) -> (r: CardSuit) {
        match self.get_suit_bit() {
            8 => CardSuit::SPADES,
            4 => CardSuit::HEARTS,
            2 => CardSuit::DIAMONDS,
            1 => CardSuit::CLUBS,
            _ => CardSuit::BLANK,
        }
    }

    fn get_rank_bit(&self) -> (r: u32) {
        self.get_rank_flag() >> CardNumber::RANK_FLAG_SHIFT
    }

    fn get_rank_char(&self) -> (r: char) {
        match self.get_rank_bit() {
            4096 => 'A',
            2048 => 'K',
            1024 => 'Q',
            512 => 'J',
            256 => 'T',
            128 => '9',
            64 => '8',
            32 => '7',
            16 => '6',
            8 => '5',
            4 => '4',
            2 => '3',
            1 => '2',
            _ => '_',
        }
    }

    fn get_rank_flag(&self) -> (r: u32) {
        *self & CardNumber::RANK_FLAG_FILTER
    }

    fn get_rank_prime(&self) -> (r: u32) {
        proof {
            assert(*self & 0b00111111u32 < 64) by (bit_vector);
        }
        *self & CardNumber::RANK_PRIME_FILTER
    }

    fn get_suit_bit(&self) -> (r: u32) {
        self.get_suit_flag() >> CardNumber::SUIT_SHIFT
    }

    fn get_suit_char(&self) -> (r: char) {
        match self.get_suit_bit() {
            8 => '\u{2660}',
            4 => '\u{2665}',
            2 => '\u{2666}',
            1 => '\u{2663}',
            _ => '_',
        }
    }

    fn get_suit_letter(&self) -> (r: char) {
        match self.get_suit_bit() {
            8 => 'S',
            4 => 'H',
            2 => 'D',
            1 => 'C',
            _ => '_',
        }
    }

    fn get_suit_flag(&self) -> (r: u32) {
        *self & CardNumber::SUIT_FILTER
    }

    fn flag_as_pair(&self) -> (r: CKCNumber) {
        *self | CardNumber::PAIR
    }

    fn flag_as_trips(&self) -> (r: CKCNumber) {
        *self | CardNumber::TRIPS
    }

    fn flag_as_quads(&self) -> (r: CKCNumber) {
        *self | CardNumber::QUADS
    }

    fn next_suit(&self) -> (r: CardSuit) {
        match self.get_card_suit() {
            CardSuit::SPADES => CardSuit::HEARTS,
            CardSuit::HEARTS => CardSuit::DIAMONDS,
            CardSuit::DIAMONDS => CardSuit::CLUBS,
            CardSuit::CLUBS => CardSuit::SPADES,
            CardSuit::BLANK => CardSuit::BLANK,
        }
    }

    fn strip_multiples_flags(&self) -> (r: CKCNumber) {
        *self & CardNumber::MULTIPLES_FILTER
    }
}

/// What shifting a card one suit over produces: the same rank in the next
/// suit of the cycle, used for suit-symmetry analysis.
pub open spec fn spec_shift_suit(c: CKCNumber) -> CKCNumber {
    spec_create(spec_card_rank(c), spec_next_suit(c))
}

/// Shifts the suit of a card to the next one down: spades to hearts,
/// hearts to diamonds, diamonds to clubs, and clubs back to spades. Since
/// no suit beats another, the odds of shifted hands match the originals'.
pub trait Shifty: Sized {
    /// The packed bits the shifted value stands for.
    spec fn spec_shifted(&self) -> Self;

    fn shift_suit(&self) -> (r: Self)
        ensures
            r == self.spec_shifted(),
    ;
}

impl Shifty for CKCNumber {
    open spec fn spec_shifted(&self) -> CKCNumber {
        spec_shift_suit(*self)
    }

    fn shift_suit(&self) -> (r: Self) {
        CKCNumber::create(self.get_card_rank(), self.next_suit())
    }
}

} // verus!
