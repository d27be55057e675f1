use ckc_rs::cards::two::Two;
use ckc_rs::parse::get_rank_and_suit;
use ckc_rs::{CKCNumber, CardNumber, CardRank, CardSuit, PokerCard, Shifty};

#[test]
fn filter() {
    assert_eq!(CardNumber::filter(2), CardNumber::BLANK);
    assert_eq!(CardNumber::filter(CardNumber::NINE_CLUBS), CardNumber::NINE_CLUBS);
}

#[test]
fn from_char() {
    let cases: Vec<(char, CardRank)> = vec![
        ('A', CardRank::ACE),
        ('a', CardRank::ACE),
        ('K', CardRank::KING),
        ('k', CardRank::KING),
        ('Q', CardRank::QUEEN),
        ('q', CardRank::QUEEN),
        ('J', CardRank::JACK),
        ('j', CardRank::JACK),
        ('T', CardRank::TEN),
        ('t', CardRank::TEN),
        ('0', CardRank::TEN),
        ('9', CardRank::NINE),
        ('8', CardRank::EIGHT),
        ('7', CardRank::SEVEN),
        ('6', CardRank::SIX),
        ('5', CardRank::FIVE),
        ('4', CardRank::FOUR),
        ('3', CardRank::THREE),
        ('2', CardRank::TWO),
        ('_', CardRank::BLANK),
        (' ', CardRank::BLANK),
    ];
    for (input, expected) in cases {
        assert_eq!(expected, CardRank::from_char(input));
    }
}

#[test]
fn binary_signature() {
    assert_eq!(32768, CardSuit::SPADES.binary_signature());
    assert_eq!(16384, CardSuit::HEARTS.binary_signature());
    assert_eq!(8192, CardSuit::DIAMONDS.binary_signature());
    assert_eq!(4096, CardSuit::CLUBS.binary_signature());
    assert_eq!(0, CardSuit::BLANK.binary_signature());
}

#[test]
fn suit_from_char() {
    let cases: Vec<(char, CardSuit)> = vec![
        ('♠', CardSuit::SPADES),
        ('♤', CardSuit::SPADES),
        ('S', CardSuit::SPADES),
        ('s', CardSuit::SPADES),
        ('♥', CardSuit::HEARTS),
        ('♡', CardSuit::HEARTS),
        ('H', CardSuit::HEARTS),
        ('h', CardSuit::HEARTS),
        ('♦', CardSuit::DIAMONDS),
        ('♢', CardSuit::DIAMONDS),
        ('D', CardSuit::DIAMONDS),
        ('d', CardSuit::DIAMONDS),
        ('♣', CardSuit::CLUBS),
        ('♧', CardSuit::CLUBS),
        ('C', CardSuit::CLUBS),
        ('c', CardSuit::CLUBS),
        (' ', CardSuit::BLANK),
        ('F', CardSuit::BLANK),
    ];
    for (input, expected) in cases {
        assert_eq!(expected, CardSuit::from_char(input));
    }
}

#[test]
fn lib_filter() {
    assert_eq!(
        <CKCNumber as PokerCard>::filter(CardNumber::ACE_SPADES),
        CardNumber::ACE_SPADES
    );
    assert_eq!(
        <CKCNumber as PokerCard>::filter(CardNumber::KING_CLUBS),
        CardNumber::filter(CardNumber::KING_CLUBS)
    );
    assert_eq!(<CKCNumber as PokerCard>::filter(2), CardNumber::BLANK);
}

#[test]
fn from_index() {
    let cases: Vec<(&str, CKCNumber)> = vec![
        ("A♠", CardNumber::ACE_SPADES),
        ("ks", CardNumber::KING_SPADES),
        ("QS", CardNumber::QUEEN_SPADES),
        ("J♠", CardNumber::JACK_SPADES),
        ("TS", CardNumber::TEN_SPADES),
        ("9s", CardNumber::NINE_SPADES),
        ("8♠", CardNumber::EIGHT_SPADES),
        ("7S", CardNumber::SEVEN_SPADES),
        ("6♠", CardNumber::SIX_SPADES),
        ("5S", CardNumber::FIVE_SPADES),
        ("4♠", CardNumber::FOUR_SPADES),
        ("3s", CardNumber::TREY_SPADES),
        ("2S", CardNumber::DEUCE_SPADES),
        ("A♥", CardNumber::ACE_HEARTS),
        ("k♥", CardNumber::KING_HEARTS),
        ("QH", CardNumber::QUEEN_HEARTS),
        ("jh", CardNumber::JACK_HEARTS),
        ("T♥", CardNumber::TEN_HEARTS),
        ("9♥", CardNumber::NINE_HEARTS),
        ("8h", CardNumber::EIGHT_HEARTS),
        ("7H", CardNumber::SEVEN_HEARTS),
        ("6h", CardNumber::SIX_HEARTS),
        ("5H", CardNumber::FIVE_HEARTS),
        ("4♥", CardNumber::FOUR_HEARTS),
        ("3♥", CardNumber::TREY_HEARTS),
        ("2h", CardNumber::DEUCE_HEARTS),
        ("A♦", CardNumber::ACE_DIAMONDS),
        ("k♦", CardNumber::KING_DIAMONDS),
        ("Q♦", CardNumber::QUEEN_DIAMONDS),
        ("Jd", CardNumber::JACK_DIAMONDS),
        ("tD", CardNumber::TEN_DIAMONDS),
        ("9♦", CardNumber::NINE_DIAMONDS),
        ("8D", CardNumber::EIGHT_DIAMONDS),
        ("7♦", CardNumber::SEVEN_DIAMONDS),
        ("6D", CardNumber::SIX_DIAMONDS),
        ("5D", CardNumber::FIVE_DIAMONDS),
        ("4♦", CardNumber::FOUR_DIAMONDS),
        ("3♦", CardNumber::TREY_DIAMONDS),
        ("2d", CardNumber::DEUCE_DIAMONDS),
        ("a♣", CardNumber::ACE_CLUBS),
        ("k♣", CardNumber::KING_CLUBS),
        ("QC", CardNumber::QUEEN_CLUBS),
        ("jc", CardNumber::JACK_CLUBS),
        ("tC", CardNumber::TEN_CLUBS),
        ("9♣", CardNumber::NINE_CLUBS),
        ("8♣", CardNumber::EIGHT_CLUBS),
        ("7c", CardNumber::SEVEN_CLUBS),
        ("6♣", CardNumber::SIX_CLUBS),
        ("5C", CardNumber::FIVE_CLUBS),
        ("4c", CardNumber::FOUR_CLUBS),
        ("3C", CardNumber::TREY_CLUBS),
        ("2C", CardNumber::DEUCE_CLUBS),
    ];
    for (index, expected) in cases {
        assert_eq!(CKCNumber::from_index(index), expected);
    }
}

#[test]
fn get_rank_and_suits() {
    let cases: Vec<(&str, CardRank, CardSuit)> = vec![
        ("A\u{2660}", CardRank::ACE, CardSuit::SPADES),
        ("a\u{2660}", CardRank::ACE, CardSuit::SPADES),
        ("AS", CardRank::ACE, CardSuit::SPADES),
        ("As", CardRank::ACE, CardSuit::SPADES),
    ];
    for (index, rank, suit) in cases {
        let (actual_rank, actual_suit) = get_rank_and_suit(index);
        assert_eq!(rank, actual_rank);
        assert_eq!(suit, actual_suit);
    }
}

#[test]
fn lib_get_rank() {
    let card = CardNumber::ACE_CLUBS;
    assert_eq!(0b00010000_00000000, card.get_rank_bit());
    assert_eq!(0b00101001, card.get_rank_prime());
    assert_eq!(CardRank::ACE, card.get_card_rank());

    let card = CardNumber::KING_DIAMONDS;
    assert_eq!(0b00001000_00000000, card.get_rank_bit());
    assert_eq!(0b00100101, card.get_rank_prime());
    assert_eq!(CardRank::KING, card.get_card_rank());

    let card = CardNumber::QUEEN_SPADES;
    assert_eq!(0b00000100_00000000, card.get_rank_bit());
    assert_eq!(0b00011111, card.get_rank_prime());
    assert_eq!(CardRank::QUEEN, card.get_card_rank());

    let card = CardNumber::JACK_HEARTS;
    assert_eq!(0b00000010_00000000, card.get_rank_bit());
    assert_eq!(0b00011101, card.get_rank_prime());
    assert_eq!(CardRank::JACK, card.get_card_rank());

    let card = CardNumber::TEN_SPADES;
    assert_eq!(0b00000001_00000000, card.get_rank_bit());
    assert_eq!(0b00010111, card.get_rank_prime());
    assert_eq!(CardRank::TEN, card.get_card_rank());

    let card = CardNumber::NINE_HEARTS;
    assert_eq!(0b00000000_10000000, card.get_rank_bit());
    assert_eq!(0b00010011, card.get_rank_prime());
    assert_eq!(CardRank::NINE, card.get_card_rank());

    let card = CardNumber::EIGHT_DIAMONDS;
    assert_eq!(0b00000000_01000000, card.get_rank_bit());
    assert_eq!(0b00010001, card.get_rank_prime());
    assert_eq!(CardRank::EIGHT, card.get_card_rank());

    let card = CardNumber::SEVEN_CLUBS;
    assert_eq!(0b00000000_00100000, card.get_rank_bit());
    assert_eq!(0b00001101, card.get_rank_prime());
    assert_eq!(CardRank::SEVEN, card.get_card_rank());

    let card = CardNumber::SIX_SPADES;
    assert_eq!(0b00000000_00010000, card.get_rank_bit());
    assert_eq!(0b00001011, card.get_rank_prime());
    assert_eq!(CardRank::SIX, card.get_card_rank());

    let card = CardNumber::FIVE_HEARTS;
    assert_eq!(0b00000000_00001000, card.get_rank_bit());
    assert_eq!(0b00000111, card.get_rank_prime());
    assert_eq!(CardRank::FIVE, card.get_card_rank());

    let card = CardNumber::FOUR_DIAMONDS;
    assert_eq!(0b00000000_00000100, card.get_rank_bit());
    assert_eq!(0b00000101, card.get_rank_prime());
    assert_eq!(CardRank::FOUR, card.get_card_rank());

    let card = CardNumber::TREY_CLUBS;
    assert_eq!(0b00000000_00000010, card.get_rank_bit());
    assert_eq!(0b00000011, card.get_rank_prime());
    assert_eq!(CardRank::THREE, card.get_card_rank());

    let card = CardNumber::DEUCE_SPADES;
    assert_eq!(0b00000000_00000001, card.get_rank_bit());
    assert_eq!(0b00000010, card.get_rank_prime());
    assert_eq!(CardRank::TWO, card.get_card_rank());

    let card = CardNumber::BLANK;
    assert_eq!(0b00000000_00000000, card.get_rank_bit());
    assert_eq!(0b00000000, card.get_rank_prime());
    assert_eq!(CardRank::BLANK, card.get_card_rank());
    assert_eq!(CardSuit::BLANK, card.get_card_suit());
}

#[test]
fn get_rank_flag() {
    assert_eq!(0b00010000_00000000_00000000_00000000, CardNumber::ACE_CLUBS.get_rank_flag());
    assert_eq!(0b00001000_00000000_00000000_00000000, CardNumber::KING_DIAMONDS.get_rank_flag());
    assert_eq!(0b00000100_00000000_00000000_00000000, CardNumber::QUEEN_SPADES.get_rank_flag());
    assert_eq!(0b00000010_00000000_00000000_00000000, CardNumber::JACK_HEARTS.get_rank_flag());
    assert_eq!(0b00000001_00000000_00000000_00000000, CardNumber::TEN_SPADES.get_rank_flag());
    assert_eq!(0b00000000_10000000_00000000_00000000, CardNumber::NINE_HEARTS.get_rank_flag());
    assert_eq!(0b00000000_01000000_00000000_00000000, CardNumber::EIGHT_DIAMONDS.get_rank_flag());
    assert_eq!(0b00000000_00100000_00000000_00000000, CardNumber::SEVEN_CLUBS.get_rank_flag());
    assert_eq!(0b00000000_00010000_00000000_00000000, CardNumber::SIX_SPADES.get_rank_flag());
    assert_eq!(0b00000000_00001000_00000000_00000000, CardNumber::FIVE_HEARTS.get_rank_flag());
    assert_eq!(0b00000000_00000100_00000000_00000000, CardNumber::FOUR_DIAMONDS.get_rank_flag());
    assert_eq!(0b00000000_00000010_00000000_00000000, CardNumber::TREY_CLUBS.get_rank_flag());
    assert_eq!(0b00000000_00000001_00000000_00000000, CardNumber::DEUCE_SPADES.get_rank_flag());
}

#[test]
fn get_suit_bit() {
    assert_eq!(0b1000, CardNumber::SEVEN_SPADES.get_suit_bit());
    assert_eq!(CardSuit::SPADES, CardNumber::SEVEN_SPADES.get_card_suit());
    assert_eq!(0b0100, CardNumber::SEVEN_HEARTS.get_suit_bit());
    assert_eq!(CardSuit::HEARTS, CardNumber::SEVEN_HEARTS.get_card_suit());
    assert_eq!(0b0010, CardNumber::SEVEN_DIAMONDS.get_suit_bit());
    assert_eq!(CardSuit::DIAMONDS, CardNumber::SEVEN_DIAMONDS.get_card_suit());
    assert_eq!(0b0001, CardNumber::SEVEN_CLUBS.get_suit_bit());
    assert_eq!(CardSuit::CLUBS, CardNumber::SEVEN_CLUBS.get_card_suit());
}

#[test]
fn get_suit_flag() {
    assert_eq!(0b10000000_00000000, CardNumber::SEVEN_SPADES.get_suit_flag());
    assert_eq!(0b01000000_00000000, CardNumber::SEVEN_HEARTS.get_suit_flag());
    assert_eq!(0b00100000_00000000, CardNumber::SEVEN_DIAMONDS.get_suit_flag());
    assert_eq!(0b00010000_00000000, CardNumber::SEVEN_CLUBS.get_suit_flag());
}

#[test]
fn lib_is_blank() {
    let card = CardNumber::BLANK;
    assert!(card.is_blank());
    assert!(0_u32.is_blank());
    assert!(PokerCard::is_blank(&0));
}

#[test]
fn flag_as_pair() {
    assert_eq!(805_342_249, CardNumber::ACE_SPADES.flag_as_pair());
}

#[test]
fn flag_as_trips() {
    assert_eq!(1_342_213_161, CardNumber::ACE_SPADES.flag_as_trips());
}

#[test]
fn flag_as_quads() {
    assert_eq!(2_415_954_985, CardNumber::ACE_SPADES.flag_as_quads());
}

#[test]
fn next_suit() {
    assert_eq!(CardNumber::TEN_SPADES.next_suit(), CardSuit::HEARTS);
    assert_eq!(CardNumber::TEN_HEARTS.next_suit(), CardSuit::DIAMONDS);
    assert_eq!(CardNumber::TEN_DIAMONDS.next_suit(), CardSuit::CLUBS);
    assert_eq!(CardNumber::TEN_CLUBS.next_suit(), CardSuit::SPADES);
    assert_eq!(CardNumber::BLANK.next_suit(), CardSuit::BLANK);
}

#[test]
fn shift_suit() {
    assert_eq!(CardNumber::ACE_SPADES.shift_suit(), CardNumber::ACE_HEARTS);
    assert_eq!(CardNumber::ACE_HEARTS.shift_suit(), CardNumber::ACE_DIAMONDS);
    assert_eq!(CardNumber::ACE_DIAMONDS.shift_suit(), CardNumber::ACE_CLUBS);
    assert_eq!(CardNumber::ACE_CLUBS.shift_suit(), CardNumber::ACE_SPADES);
    assert_eq!(CardNumber::BLANK.shift_suit(), CardNumber::BLANK);
}

#[test]
fn strip_multiples_flags() {
    assert_eq!(
        CardNumber::ACE_SPADES,
        CardNumber::ACE_SPADES.flag_as_pair().strip_multiples_flags()
    );
    assert_eq!(
        CardNumber::ACE_SPADES,
        CardNumber::ACE_SPADES.flag_as_trips().strip_multiples_flags()
    );
    assert_eq!(
        CardNumber::ACE_SPADES,
        CardNumber::ACE_SPADES.flag_as_quads().strip_multiples_flags()
    );
    assert_eq!(
        CardNumber::ACE_SPADES,
        (CardNumber::ACE_SPADES.flag_as_pair().flag_as_trips().flag_as_quads())
            .strip_multiples_flags()
    );
}

#[test]
fn chen_formula() {
    let cases: Vec<(i8, CKCNumber, CKCNumber)> = vec![
        (20, CardNumber::ACE_SPADES, CardNumber::ACE_CLUBS),
        (12, CardNumber::ACE_SPADES, CardNumber::KING_SPADES),
        (10, CardNumber::ACE_SPADES, CardNumber::KING_CLUBS),
        (16, CardNumber::KING_SPADES, CardNumber::KING_CLUBS),
        (14, CardNumber::QUEEN_SPADES, CardNumber::QUEEN_CLUBS),
        (12, CardNumber::JACK_SPADES, CardNumber::JACK_CLUBS),
        (10, CardNumber::TEN_SPADES, CardNumber::TEN_CLUBS),
        (9, CardNumber::JACK_SPADES, CardNumber::TEN_SPADES),
        (5, CardNumber::FIVE_SPADES, CardNumber::ACE_CLUBS),
        (7, CardNumber::FIVE_SPADES, CardNumber::ACE_SPADES),
        (6, CardNumber::FIVE_SPADES, CardNumber::SIX_SPADES),
        (5, CardNumber::TREY_SPADES, CardNumber::TREY_CLUBS),
        (5, CardNumber::DEUCE_SPADES, CardNumber::DEUCE_CLUBS),
        (-1, CardNumber::DEUCE_SPADES, CardNumber::SEVEN_CLUBS),
    ];
    for (expected, a, b) in cases {
        assert_eq!(expected, Two::new(a, b).chen_formula());
    }
}

#[test]
fn scratch() {
    // a paired ace of spades would carry the pair flag above the rank flags
    let paired = 0b10010000000000001000110000101001u32;
    assert_eq!(CardNumber::ACE_SPADES, paired.strip_multiples_flags());
}
