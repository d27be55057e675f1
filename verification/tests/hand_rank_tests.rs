use ckc_rs::cards::five::Five;
use ckc_rs::evaluate;
use ckc_rs::hand_rank::{HandRank, HandRankClass, HandRankName};
use ckc_rs::parse::five_from_index;
use ckc_rs::CardNumber;

#[test]
fn is_aligned() {
    assert!(HandRank::from(0).is_a_valid_hand_rank());
    assert!(HandRank::from(1).is_a_valid_hand_rank());
}

#[test]
fn is_aligned__false() {
    let mut hr = HandRank::from(1);
    hr.name = HandRankName::Flush;

    assert!(!hr.is_a_valid_hand_rank());
}

#[test]
fn is_invalid() {
    assert!(HandRank::from(0).is_invalid());
    assert!(HandRank::from(7463).is_invalid());
    assert!(HandRank::default().is_invalid());
    assert!(!HandRank::from(6186).is_invalid());
}

#[test]
fn ord() {
    assert!(HandRank::from(1) > HandRank::from(2));
    assert!(HandRank::from(2000) < HandRank::from(2));
    assert!(HandRank::from(0) < HandRank::from(2));
    assert_eq!(HandRank::from(2), HandRank::from(2));
}

#[test]
fn panic_isolation() {
    let invalid_hand = five_from_index("2S 2H 2D 2C 2D").unwrap();

    let invalid_result = HandRank::from(evaluate::five_cards(invalid_hand));

    assert_eq!(invalid_result, HandRank::default());
    assert!(invalid_result.is_invalid());
}

#[test]
fn five_cards_royal_flush() {
    let cards = [
        CardNumber::ACE_SPADES,
        CardNumber::KING_SPADES,
        CardNumber::QUEEN_SPADES,
        CardNumber::JACK_SPADES,
        CardNumber::TEN_SPADES,
    ];
    assert_eq!(evaluate::five_cards(cards), 1);
}

#[test]
fn five_cards_straight() {
    let first = [
        CardNumber::NINE_CLUBS,
        CardNumber::KING_SPADES,
        CardNumber::QUEEN_SPADES,
        CardNumber::JACK_SPADES,
        CardNumber::TEN_SPADES,
    ];
    let second = [
        CardNumber::NINE_CLUBS,
        CardNumber::QUEEN_SPADES,
        CardNumber::JACK_SPADES,
        CardNumber::TEN_SPADES,
        CardNumber::EIGHT_CLUBS,
    ];
    assert_eq!(evaluate::five_cards(first), 1601);
    assert_eq!(evaluate::five_cards(second), 1602);
}

#[test]
fn five_cards_two_pair() {
    let cards = [
        CardNumber::JACK_CLUBS,
        CardNumber::DEUCE_CLUBS,
        CardNumber::DEUCE_DIAMONDS,
        CardNumber::JACK_SPADES,
        CardNumber::TEN_SPADES,
    ];
    assert_eq!(evaluate::five_cards(cards), 2922);
}

#[test]
fn five_cards_king_high() {
    let first = [
        CardNumber::JACK_CLUBS,
        CardNumber::DEUCE_CLUBS,
        CardNumber::TREY_CLUBS,
        CardNumber::KING_SPADES,
        CardNumber::TEN_SPADES,
    ];
    let second = [
        CardNumber::JACK_CLUBS,
        CardNumber::QUEEN_DIAMONDS,
        CardNumber::TREY_CLUBS,
        CardNumber::KING_SPADES,
        CardNumber::TEN_SPADES,
    ];
    assert_eq!(evaluate::five_cards(first), 6825);
    assert_eq!(evaluate::five_cards(second), 6684);
}

#[test]
fn check_dupes() {
    let hand = [
        CardNumber::JACK_CLUBS,
        CardNumber::DEUCE_CLUBS,
        CardNumber::TREY_CLUBS,
        CardNumber::KING_SPADES,
        CardNumber::JACK_CLUBS,
    ];
    assert_eq!(evaluate::five_cards(hand), 0);
}

#[test]
fn check_corrupt() {
    let first = [
        CardNumber::JACK_CLUBS,
        CardNumber::DEUCE_CLUBS,
        23,
        CardNumber::KING_SPADES,
        CardNumber::TEN_SPADES,
    ];
    let second = [
        CardNumber::JACK_CLUBS,
        CardNumber::QUEEN_DIAMONDS,
        CardNumber::TREY_CLUBS,
        CardNumber::KING_SPADES,
        CardNumber::BLANK,
    ];
    assert_eq!(evaluate::five_cards(first), 0);
    assert_eq!(evaluate::five_cards(second), 0);
}

#[test]
fn hand_rank_fixtures_1() {
    let cases: Vec<(&str, u16, HandRankName, HandRankClass)> = vec![
        ("A♠ K♠ Q♠ J♠ T♠", 1, HandRankName::StraightFlush, HandRankClass::RoyalFlush),
        ("K♥ Q♥ J♥ T♥ 9♥", 2, HandRankName::StraightFlush, HandRankClass::KingHighStraightFlush),
        ("Q♦ J♦ T♦ 9♦ 8♦", 3, HandRankName::StraightFlush, HandRankClass::QueenHighStraightFlush),
        ("J♣ T♣ 9♣ 8♣ 7♣", 4, HandRankName::StraightFlush, HandRankClass::JackHighStraightFlush),
        ("T♤ 9♤ 8♤ 7♤ 6♤", 5, HandRankName::StraightFlush, HandRankClass::TenHighStraightFlush),
        ("9♡ 8♡ 7♡ 6♡ 5♡", 6, HandRankName::StraightFlush, HandRankClass::NineHighStraightFlush),
        ("8♧ 7♧ 6♧ 5♧ 4♧", 7, HandRankName::StraightFlush, HandRankClass::EightHighStraightFlush),
        ("7S 6S 5S 4S 3S", 8, HandRankName::StraightFlush, HandRankClass::SevenHighStraightFlush),
        ("6H 5H 4H 3H 2H", 9, HandRankName::StraightFlush, HandRankClass::SixHighStraightFlush),
        ("5D 4D 3D 2D AD", 10, HandRankName::StraightFlush, HandRankClass::FiveHighStraightFlush),
        ("AS AH AD AC KS", 11, HandRankName::FourOfAKind, HandRankClass::FourAces),
        ("AS AH AD AC QS", 12, HandRankName::FourOfAKind, HandRankClass::FourAces),
        ("AS AH AD AC JS", 13, HandRankName::FourOfAKind, HandRankClass::FourAces),
        ("AS AH AD AC TD", 14, HandRankName::FourOfAKind, HandRankClass::FourAces),
        ("AS AH AD AC TC", 14, HandRankName::FourOfAKind, HandRankClass::FourAces),
        ("AS AH AD AC 2S", 22, HandRankName::FourOfAKind, HandRankClass::FourAces),
        ("KS KH KD KC AS", 23, HandRankName::FourOfAKind, HandRankClass::FourKings),
        ("KS KH KD KC 2S", 34, HandRankName::FourOfAKind, HandRankClass::FourKings),
        ("QS QH QD QC AS", 35, HandRankName::FourOfAKind, HandRankClass::FourQueens),
        ("QS QH QD QC 2C", 46, HandRankName::FourOfAKind, HandRankClass::FourQueens),
        ("JS JH JD JC AC", 47, HandRankName::FourOfAKind, HandRankClass::FourJacks),
        ("JS JH JD JC 2C", 58, HandRankName::FourOfAKind, HandRankClass::FourJacks),
        ("TS TH TD TC AS", 59, HandRankName::FourOfAKind, HandRankClass::FourTens),
        ("TS TH TD TC 2C", 70, HandRankName::FourOfAKind, HandRankClass::FourTens),
        ("9S 9H 9D 9C AH", 71, HandRankName::FourOfAKind, HandRankClass::FourNines),
        ("9S 9H 9D 9C 2D", 82, HandRankName::FourOfAKind, HandRankClass::FourNines),
        ("8S 8H 8D 8C AD", 83, HandRankName::FourOfAKind, HandRankClass::FourEights),
        ("8S 8H 8D 8C 2D", 94, HandRankName::FourOfAKind, HandRankClass::FourEights),
        ("7S 7H 7D 7C AD", 95, HandRankName::FourOfAKind, HandRankClass::FourSevens),
        ("7S 7H 7D 7C 2D", 106, HandRankName::FourOfAKind, HandRankClass::FourSevens),
        ("6S 6H 6D 6C AD", 107, HandRankName::FourOfAKind, HandRankClass::FourSixes),
        ("6S 6H 6D 6C 2D", 118, HandRankName::FourOfAKind, HandRankClass::FourSixes),
        ("5S 5H 5D 5C AD", 119, HandRankName::FourOfAKind, HandRankClass::FourFives),
        ("5S 5H 5D 5C 2D", 130, HandRankName::FourOfAKind, HandRankClass::FourFives),
        ("4S 4H 4D 4C AD", 131, HandRankName::FourOfAKind, HandRankClass::FourFours),
        ("4S 4H 4D 4C 2D", 142, HandRankName::FourOfAKind, HandRankClass::FourFours),
        ("3S 3H 3D 3C AD", 143, HandRankName::FourOfAKind, HandRankClass::FourTreys),
        ("3S 3H 3D 3C 2D", 154, HandRankName::FourOfAKind, HandRankClass::FourTreys),
        ("2S 2H 2D 2C AC", 155, HandRankName::FourOfAKind, HandRankClass::FourDeuces),
        ("2S 2H 2D 2C 3D", 166, HandRankName::FourOfAKind, HandRankClass::FourDeuces),
        ("AS AH AD KC KD", 167, HandRankName::FullHouse, HandRankClass::AcesOverKings),
        ("AS AH AD QC QD", 168, HandRankName::FullHouse, HandRankClass::AcesOverQueens),
        ("AS AH AD JD JC", 169, HandRankName::FullHouse, HandRankClass::AcesOverJacks),
        ("AS AH AD TD TC", 170, HandRankName::FullHouse, HandRankClass::AcesOverTens),
        ("AS AH AD 9S 9D", 171, HandRankName::FullHouse, HandRankClass::AcesOverNines),
        ("AS AH AD 8S 8D", 172, HandRankName::FullHouse, HandRankClass::AcesOverEights),
        ("AS AH AD 7S 7D", 173, HandRankName::FullHouse, HandRankClass::AcesOverSevens),
        ("AS AH AD 6S 6D", 174, HandRankName::FullHouse, HandRankClass::AcesOverSixes),
        ("AS AH AD 5S 5D", 175, HandRankName::FullHouse, HandRankClass::AcesOverFives),
        ("AS AH AD 4S 4D", 176, HandRankName::FullHouse, HandRankClass::AcesOverFours),
        ("AS AH AD 3D 3c", 177, HandRankName::FullHouse, HandRankClass::AcesOverTreys),
        ("AS AH AD 2H 2D", 178, HandRankName::FullHouse, HandRankClass::AcesOverDeuces),
        ("AS AH KD KH KC", 179, HandRankName::FullHouse, HandRankClass::KingsOverAces),
        ("QS KH QD KC KD", 180, HandRankName::FullHouse, HandRankClass::KingsOverQueens),
        ("KS KH KD JH JD", 181, HandRankName::FullHouse, HandRankClass::KingsOverJacks),
        ("KS KH KD TH TD", 182, HandRankName::FullHouse, HandRankClass::KingsOverTens),
        ("KS KH KD 9H 9D", 183, HandRankName::FullHouse, HandRankClass::KingsOverNines),
        ("KS KH 8D 8H KD", 184, HandRankName::FullHouse, HandRankClass::KingsOverEights),
        ("KS KH KD 7H 7D", 185, HandRankName::FullHouse, HandRankClass::KingsOverSevens),
        ("KS KH KD 6H 6D", 186, HandRankName::FullHouse, HandRankClass::KingsOverSixes),
        ("KS KH KD 5H 5D", 187, HandRankName::FullHouse, HandRankClass::KingsOverFives),
        ("4S 4H KD KH KC", 188, HandRankName::FullHouse, HandRankClass::KingsOverFours),
        ("3S KH KD 3H KC", 189, HandRankName::FullHouse, HandRankClass::KingsOverTreys),
        ("KS KH KD 2H 2D", 190, HandRankName::FullHouse, HandRankClass::KingsOverDeuces),
        ("QS QH QD AH AD", 191, HandRankName::FullHouse, HandRankClass::QueensOverAces),
        ("QS QH QD KH KD", 192, HandRankName::FullHouse, HandRankClass::QueensOverKings),
        ("QS QH QD JH JD", 193, HandRankName::FullHouse, HandRankClass::QueensOverJacks),
        ("QS QH QD TH TD", 194, HandRankName::FullHouse, HandRankClass::QueensOverTens),
        ("QS QH QD 9H 9D", 195, HandRankName::FullHouse, HandRankClass::QueensOverNines),
        ("QS QH QD 8H 8D", 196, HandRankName::FullHouse, HandRankClass::QueensOverEights),
        ("QS QH QD 7H 7D", 197, HandRankName::FullHouse, HandRankClass::QueensOverSevens),
        ("QS QH QD 6H 6D", 198, HandRankName::FullHouse, HandRankClass::QueensOverSixes),
        ("QS QH QD 5H 5D", 199, HandRankName::FullHouse, HandRankClass::QueensOverFives),
        ("QS QH QD 4S 4D", 200, HandRankName::FullHouse, HandRankClass::QueensOverFours),
        ("QS QH QD 3H 3D", 201, HandRankName::FullHouse, HandRankClass::QueensOverTreys),
        ("QS QH QD 2H 2D", 202, HandRankName::FullHouse, HandRankClass::QueensOverDeuces),
        ("JS JH JD AH AD", 203, HandRankName::FullHouse, HandRankClass::JacksOverAces),
        ("JS JH JD KH KD", 204, HandRankName::FullHouse, HandRankClass::JacksOverKings),
        ("JS JH JD QH QD", 205, HandRankName::FullHouse, HandRankClass::JacksOverQueens),
        ("JS JH JD TH TD", 206, HandRankName::FullHouse, HandRankClass::JacksOverTens),
        ("JS JH JD 9H 9D", 207, HandRankName::FullHouse, HandRankClass::JacksOverNines),
        ("JS JH JD 8H 8D", 208, HandRankName::FullHouse, HandRankClass::JacksOverEights),
        ("JS JH JD 7H 7D", 209, HandRankName::FullHouse, HandRankClass::JacksOverSevens),
        ("JS JH JD 6H 6D", 210, HandRankName::FullHouse, HandRankClass::JacksOverSixes),
        ("JS JH JD 5H 5D", 211, HandRankName::FullHouse, HandRankClass::JacksOverFives),
        ("JS JH JD 4H 4D", 212, HandRankName::FullHouse, HandRankClass::JacksOverFours),
        ("JS JH JD 3H 3D", 213, HandRankName::FullHouse, HandRankClass::JacksOverTreys),
        ("JS JH JD 2H 2D", 214, HandRankName::FullHouse, HandRankClass::JacksOverDeuces),
        ("TS TH TD AH AD", 215, HandRankName::FullHouse, HandRankClass::TensOverAces),
        ("TS TH TD KH KD", 216, HandRankName::FullHouse, HandRankClass::TensOverKings),
        ("TS TH TD QH QD", 217, HandRankName::FullHouse, HandRankClass::TensOverQueens),
        ("TS TH TD JH JD", 218, HandRankName::FullHouse, HandRankClass::TensOverJacks),
        ("TS TH TD 9H 9D", 219, HandRankName::FullHouse, HandRankClass::TensOverNines),
        ("TS TH TD 8H 8D", 220, HandRankName::FullHouse, HandRankClass::TensOverEights),
        ("TS TH TD 7H 7D", 221, HandRankName::FullHouse, HandRankClass::TensOverSevens),
        ("TS TH TD 6S 6D", 222, HandRankName::FullHouse, HandRankClass::TensOverSixes),
        ("TS TH TD 5H 5D", 223, HandRankName::FullHouse, HandRankClass::TensOverFives),
        ("TS TH TD 4H 4D", 224, HandRankName::FullHouse, HandRankClass::TensOverFours),
        ("TS TH TD 3H 3D", 225, HandRankName::FullHouse, HandRankClass::TensOverTreys),
        ("TS TH TD 2H 2D", 226, HandRankName::FullHouse, HandRankClass::TensOverDeuces),
        ("9S 9H 9D AH AD", 227, HandRankName::FullHouse, HandRankClass::NinesOverAces),
        ("9S 9H 9D KH KD", 228, HandRankName::FullHouse, HandRankClass::NinesOverKings),
        ("9S 9H 9D QH QD", 229, HandRankName::FullHouse, HandRankClass::NinesOverQueens),
        ("9S 9H 9D JH JD", 230, HandRankName::FullHouse, HandRankClass::NinesOverJacks),
        ("9S 9H 9D TH TD", 231, HandRankName::FullHouse, HandRankClass::NinesOverTens),
        ("9S 9H 9D 8H 8D", 232, HandRankName::FullHouse, HandRankClass::NinesOverEights),
        ("9S 9H 9D 7H 7D", 233, HandRankName::FullHouse, HandRankClass::NinesOverSevens),
        ("9S 9H 9D 6S 6D", 234, HandRankName::FullHouse, HandRankClass::NinesOverSixes),
        ("9S 9H 9D 5H 5D", 235, HandRankName::FullHouse, HandRankClass::NinesOverFives),
        ("9S 9H 9D 4H 4D", 236, HandRankName::FullHouse, HandRankClass::NinesOverFours),
        ("9S 9H 9D 3H 3D", 237, HandRankName::FullHouse, HandRankClass::NinesOverTreys),
        ("9S 9H 9D 2H 2D", 238, HandRankName::FullHouse, HandRankClass::NinesOverDeuces),
        ("8S 8H 8D AH AD", 239, HandRankName::FullHouse, HandRankClass::EightsOverAces),
        ("8S 8H 8D KH KD", 240, HandRankName::FullHouse, HandRankClass::EightsOverKings),
        ("8S 8H 8D QH QD", 241, HandRankName::FullHouse, HandRankClass::EightsOverQueens),
        ("8S 8H 8D JH JD", 242, HandRankName::FullHouse, HandRankClass::EightsOverJacks),
        ("8S 8H 8D TH TD", 243, HandRankName::FullHouse, HandRankClass::EightsOverTens),
        ("8S 8H 8D 9H 9D", 244, HandRankName::FullHouse, HandRankClass::EightsOverNines),
        ("8S 8H 8D 7H 7D", 245, HandRankName::FullHouse, HandRankClass::EightsOverSevens),
        ("8S 8H 8D 6S 6D", 246, HandRankName::FullHouse, HandRankClass::EightsOverSixes),
        ("8S 8H 8D 5H 5D", 247, HandRankName::FullHouse, HandRankClass::EightsOverFives),
        ("8S 8H 8D 4H 4D", 248, HandRankName::FullHouse, HandRankClass::EightsOverFours),
        ("8S 8H 8D 3H 3D", 249, HandRankName::FullHouse, HandRankClass::EightsOverTreys),
        ("8S 8H 8D 2H 2D", 250, HandRankName::FullHouse, HandRankClass::EightsOverDeuces),
        ("7S 7H 7D AH AD", 251, HandRankName::FullHouse, HandRankClass::SevensOverAces),
        ("7S 7H 7D KH KD", 252, HandRankName::FullHouse, HandRankClass::SevensOverKings),
        ("7S 7H 7D QH QD", 253, HandRankName::FullHouse, HandRankClass::SevensOverQueens),
        ("7S 7H 7D JH JD", 254, HandRankName::FullHouse, HandRankClass::SevensOverJacks),
        ("7S 7H 7D TH TD", 255, HandRankName::FullHouse, HandRankClass::SevensOverTens),
        ("7S 7H 7D 9H 9D", 256, HandRankName::FullHouse, HandRankClass::SevensOverNines),
        ("7S 7H 7D 8H 8D", 257, HandRankName::FullHouse, HandRankClass::SevensOverEights),
        ("7S 7H 7D 6S 6D", 258, HandRankName::FullHouse, HandRankClass::SevensOverSixes),
        ("7S 7H 7D 5H 5D", 259, HandRankName::FullHouse, HandRankClass::SevensOverFives),
        ("7S 7H 7D 4H 4D", 260, HandRankName::FullHouse, HandRankClass::SevensOverFours),
        ("7S 7H 7D 3H 3D", 261, HandRankName::FullHouse, HandRankClass::SevensOverTreys),
        ("7S 7H 7D 2H 2D", 262, HandRankName::FullHouse, HandRankClass::SevensOverDeuces),
        ("6S 6H 6D AH AD", 263, HandRankName::FullHouse, HandRankClass::SixesOverAces),
        ("6S 6H 6D KH KD", 264, HandRankName::FullHouse, HandRankClass::SixesOverKings),
        ("6S 6H 6D QH QD", 265, HandRankName::FullHouse, HandRankClass::SixesOverQueens),
        ("6S 6H 6D JH JD", 266, HandRankName::FullHouse, HandRankClass::SixesOverJacks),
        ("6S 6H 6D TH TD", 267, HandRankName::FullHouse, HandRankClass::SixesOverTens),
        ("6S 6H 6D 9H 9D", 268, HandRankName::FullHouse, HandRankClass::SixesOverNines),
        ("6S 6H 6D 8H 8D", 269, HandRankName::FullHouse, HandRankClass::SixesOverEights),
        ("6S 6H 6D 7S 7D", 270, HandRankName::FullHouse, HandRankClass::SixesOverSevens),
        ("6S 6H 6D 5H 5D", 271, HandRankName::FullHouse, HandRankClass::SixesOverFives),
        ("6S 6H 6D 4H 4D", 272, HandRankName::FullHouse, HandRankClass::SixesOverFours),
        ("6S 6H 6D 3H 3D", 273, HandRankName::FullHouse, HandRankClass::SixesOverTreys),
        ("6S 6H 6D 2H 2D", 274, HandRankName::FullHouse, HandRankClass::SixesOverDeuces),
        ("5S 5H 5D AH AD", 275, HandRankName::FullHouse, HandRankClass::FivesOverAces),
        ("5S 5H 5D KH KD", 276, HandRankName::FullHouse, HandRankClass::FivesOverKings),
        ("5S 5H 5D QH QD", 277, HandRankName::FullHouse, HandRankClass::FivesOverQueens),
        ("5S 5H 5D JH JD", 278, HandRankName::FullHouse, HandRankClass::FivesOverJacks),
        ("5S 5H 5D TH TD", 279, HandRankName::FullHouse, HandRankClass::FivesOverTens),
        ("5S 5H 5D 9H 9D", 280, HandRankName::FullHouse, HandRankClass::FivesOverNines),
        ("5S 5H 5D 8H 8D", 281, HandRankName::FullHouse, HandRankClass::FivesOverEights),
        ("5S 5H 5D 7S 7D", 282, HandRankName::FullHouse, HandRankClass::FivesOverSevens),
        ("5S 5H 5D 6H 6D", 283, HandRankName::FullHouse, HandRankClass::FivesOverSixes),
        ("5S 5H 5D 4H 4D", 284, HandRankName::FullHouse, HandRankClass::FivesOverFours),
        ("5S 5H 5D 3H 3D", 285, HandRankName::FullHouse, HandRankClass::FivesOverTreys),
        ("5S 5H 5D 2H 2D", 286, HandRankName::FullHouse, HandRankClass::FivesOverDeuces),
        ("4S 4H 4D AH AD", 287, HandRankName::FullHouse, HandRankClass::FoursOverAces),
        ("4S 4H 4D KH KD", 288, HandRankName::FullHouse, HandRankClass::FoursOverKings),
        ("4S 4H 4D QH QD", 289, HandRankName::FullHouse, HandRankClass::FoursOverQueens),
        ("4S 4H 4D JH JD", 290, HandRankName::FullHouse, HandRankClass::FoursOverJacks),
        ("4S 4H 4D TH TD", 291, HandRankName::FullHouse, HandRankClass::FoursOverTens),
        ("4S 4H 4D 9H 9D", 292, HandRankName::FullHouse, HandRankClass::FoursOverNines),
        ("4S 4H 4D 8H 8D", 293, HandRankName::FullHouse, HandRankClass::FoursOverEights),
        ("4S 4H 4D 7S 7D", 294, HandRankName::FullHouse, HandRankClass::FoursOverSevens),
        ("4S 4H 4D 6H 6D", 295, HandRankName::FullHouse, HandRankClass::FoursOverSixes),
        ("4S 4H 4D 5H 5D", 296, HandRankName::FullHouse, HandRankClass::FoursOverFives),
        ("4S 4H 4D 3H 3D", 297, HandRankName::FullHouse, HandRankClass::FoursOverTreys),
        ("4S 4H 4D 2H 2D", 298, HandRankName::FullHouse, HandRankClass::FoursOverDeuces),
        ("3S 3H 3D AH AD", 299, HandRankName::FullHouse, HandRankClass::TreysOverAces),
        ("3S 3H 3D KH KD", 300, HandRankName::FullHouse, HandRankClass::TreysOverKings),
        ("3S 3H 3D QH QD", 301, HandRankName::FullHouse, HandRankClass::TreysOverQueens),
        ("3S 3H 3D JH JD", 302, HandRankName::FullHouse, HandRankClass::TreysOverJacks),
        ("3S 3H 3D TH TD", 303, HandRankName::FullHouse, HandRankClass::TreysOverTens),
        ("3S 3H 3D 9H 9D", 304, HandRankName::FullHouse, HandRankClass::TreysOverNines),
        ("3S 3H 3D 8H 8D", 305, HandRankName::FullHouse, HandRankClass::TreysOverEights),
        ("3S 3H 3D 7S 7D", 306, HandRankName::FullHouse, HandRankClass::TreysOverSevens),
        ("3S 3H 3D 6H 6D", 307, HandRankName::FullHouse, HandRankClass::TreysOverSixes),
        ("3S 3H 3D 5H 5D", 308, HandRankName::FullHouse, HandRankClass::TreysOverFives),
        ("3S 3H 3D 4H 4D", 309, HandRankName::FullHouse, HandRankClass::TreysOverFours),
        ("3S 3H 3D 2H 2D", 310, HandRankName::FullHouse, HandRankClass::TreysOverDeuces),
        ("2S 2H 2D AH AD", 311, HandRankName::FullHouse, HandRankClass::DeucesOverAces),
        ("2S 2H 2D KH KD", 312, HandRankName::FullHouse, HandRankClass::DeucesOverKings),
        ("2S 2H 2D QH QD", 313, HandRankName::FullHouse, HandRankClass::DeucesOverQueens),
        ("2S 2H 2D JH JD", 314, HandRankName::FullHouse, HandRankClass::DeucesOverJacks),
        ("2S 2H 2D TH TD", 315, HandRankName::FullHouse, HandRankClass::DeucesOverTens),
        ("2S 2H 2D 9H 9D", 316, HandRankName::FullHouse, HandRankClass::DeucesOverNines),
        ("2S 2H 2D 8H 8D", 317, HandRankName::FullHouse, HandRankClass::DeucesOverEights),
        ("2S 2H 2D 7S 7D", 318, HandRankName::FullHouse, HandRankClass::DeucesOverSevens),
        ("2S 2H 2D 6H 6D", 319, HandRankName::FullHouse, HandRankClass::DeucesOverSixes),
        ("2S 2H 2D 5H 5D", 320, HandRankName::FullHouse, HandRankClass::DeucesOverFives),
        ("2S 2H 2D 4H 4D", 321, HandRankName::FullHouse, HandRankClass::DeucesOverFours),
        ("2S 2H 2D 3H 3D", 322, HandRankName::FullHouse, HandRankClass::DeucesOverTreys),
        ("AS KS QS JS 9S", 323, HandRankName::Flush, HandRankClass::AceHighFlush),
        ("AS 6S 4S 3S 2S", 815, HandRankName::Flush, HandRankClass::AceHighFlush),
        ("KH QH JH TH 8H", 816, HandRankName::Flush, HandRankClass::KingHighFlush),
        ("KC 5C 4C 3C 2C", 1144, HandRankName::Flush, HandRankClass::KingHighFlush),
    ];
    for (index, value, name, class) in cases {
        let hand = Five::try_from(index).unwrap();
        let hand_rank = hand.hand_rank();
        assert_eq!(value, hand_rank.value, "{}", index);
        assert_eq!(name, hand_rank.name, "{}", index);
        assert_eq!(class, hand_rank.class, "{}", index);
    }
}

#[test]
fn hand_rank_fixtures_2() {
    let cases: Vec<(&str, u16, HandRankName, HandRankClass)> = vec![
        ("QH JH TH 9H 7H", 1145, HandRankName::Flush, HandRankClass::QueenHighFlush),
        ("QC 5C 4C 3C 2C", 1353, HandRankName::Flush, HandRankClass::QueenHighFlush),
        ("JH TH 9H 8H 6H", 1354, HandRankName::Flush, HandRankClass::JackHighFlush),
        ("JC 5C 4C 3C 2C", 1478, HandRankName::Flush, HandRankClass::JackHighFlush),
        ("TH 9H 8H 7H 5H", 1479, HandRankName::Flush, HandRankClass::TenHighFlush),
        ("TC 5C 4C 3C 2C", 1547, HandRankName::Flush, HandRankClass::TenHighFlush),
        ("9H 8H 7H 6H 4H", 1548, HandRankName::Flush, HandRankClass::NineHighFlush),
        ("9C 5C 4C 3C 2C", 1581, HandRankName::Flush, HandRankClass::NineHighFlush),
        ("8H 7H 6H 5H 3H", 1582, HandRankName::Flush, HandRankClass::EightHighFlush),
        ("8C 5C 4C 3C 2C", 1595, HandRankName::Flush, HandRankClass::EightHighFlush),
        ("7H 6H 5H 4H 2H", 1596, HandRankName::Flush, HandRankClass::SevenHighFlush),
        ("7C 5C 4C 3C 2C", 1599, HandRankName::Flush, HandRankClass::SevenHighFlush),
        ("A♠ K♠ Q♥ J♠ T♠", 1600, HandRankName::Straight, HandRankClass::AceHighStraight),
        ("K♥ Q♥ J♠ T♥ 9♥", 1601, HandRankName::Straight, HandRankClass::KingHighStraight),
        ("Q♦ J♠ T♦ 9♦ 8♦", 1602, HandRankName::Straight, HandRankClass::QueenHighStraight),
        ("J♣ T♣ 9♣ 8♠ 7♣", 1603, HandRankName::Straight, HandRankClass::JackHighStraight),
        ("T♤ 9♤ 8♡ 7♤ 6♤", 1604, HandRankName::Straight, HandRankClass::TenHighStraight),
        ("9♡ 8♤ 7♡ 6♡ 5♡", 1605, HandRankName::Straight, HandRankClass::NineHighStraight),
        ("8♧ 7♧ 6♡ 5♧ 4♧", 1606, HandRankName::Straight, HandRankClass::EightHighStraight),
        ("7S 6♥ 5S 4S 3S", 1607, HandRankName::Straight, HandRankClass::SevenHighStraight),
        ("6H 5S 4H 3H 2H", 1608, HandRankName::Straight, HandRankClass::SixHighStraight),
        ("5D 4D 3♥ 2D AD", 1609, HandRankName::Straight, HandRankClass::FiveHighStraight),
        ("AS AD AC KS QD", 1610, HandRankName::ThreeOfAKind, HandRankClass::ThreeAces),
        ("AS AD AC 3S 2D", 1675, HandRankName::ThreeOfAKind, HandRankClass::ThreeAces),
        ("KS KH KC AD QD", 1676, HandRankName::ThreeOfAKind, HandRankClass::ThreeKings),
        ("KS KH KC 3D 2D", 1741, HandRankName::ThreeOfAKind, HandRankClass::ThreeKings),
        ("QH QD QC AD KS", 1742, HandRankName::ThreeOfAKind, HandRankClass::ThreeQueens),
        ("QH QD QC 3D 2S", 1807, HandRankName::ThreeOfAKind, HandRankClass::ThreeQueens),
        ("JS JD JC AD KS", 1808, HandRankName::ThreeOfAKind, HandRankClass::ThreeJacks),
        ("JS JD JC 3D 2S", 1873, HandRankName::ThreeOfAKind, HandRankClass::ThreeJacks),
        ("TH TD TC AD KD", 1874, HandRankName::ThreeOfAKind, HandRankClass::ThreeTens),
        ("TH TD TC 3D 2D", 1939, HandRankName::ThreeOfAKind, HandRankClass::ThreeTens),
        ("9H 9D 9C AD KD", 1940, HandRankName::ThreeOfAKind, HandRankClass::ThreeNines),
        ("9H 9D 9C 3D 2D", 2005, HandRankName::ThreeOfAKind, HandRankClass::ThreeNines),
        ("8H 8D 8C AD KD", 2006, HandRankName::ThreeOfAKind, HandRankClass::ThreeEights),
        ("8H 8D 8C 3D 2D", 2071, HandRankName::ThreeOfAKind, HandRankClass::ThreeEights),
        ("7H 7D 7C AS KD", 2072, HandRankName::ThreeOfAKind, HandRankClass::ThreeSevens),
        ("7H 7D 7C 3S 2D", 2137, HandRankName::ThreeOfAKind, HandRankClass::ThreeSevens),
        ("6H 6D 6C AS KD", 2138, HandRankName::ThreeOfAKind, HandRankClass::ThreeSixes),
        ("6H 6D 6C 3S 2D", 2203, HandRankName::ThreeOfAKind, HandRankClass::ThreeSixes),
        ("5S 5H 5C AD KD", 2204, HandRankName::ThreeOfAKind, HandRankClass::ThreeFives),
        ("5S 5H 5C 3D 2D", 2269, HandRankName::ThreeOfAKind, HandRankClass::ThreeFives),
        ("4S 4H 4C AD KD", 2270, HandRankName::ThreeOfAKind, HandRankClass::ThreeFours),
        ("4S 4H 4C 3D 2D", 2335, HandRankName::ThreeOfAKind, HandRankClass::ThreeFours),
        ("3S 3H 3C AD KD", 2336, HandRankName::ThreeOfAKind, HandRankClass::ThreeTreys),
        ("3S 3D 3C 4D 2D", 2401, HandRankName::ThreeOfAKind, HandRankClass::ThreeTreys),
        ("2S 2H 2C AD KD", 2402, HandRankName::ThreeOfAKind, HandRankClass::ThreeDeuces),
        ("2S 2H 2C 4S 3C", 2467, HandRankName::ThreeOfAKind, HandRankClass::ThreeDeuces),
        ("AS AD KS KH Q♥", 2468, HandRankName::TwoPair, HandRankClass::AcesAndKings),
        ("AS AD KS KH 2♥", 2478, HandRankName::TwoPair, HandRankClass::AcesAndKings),
        ("AS AD QS QH K♥", 2479, HandRankName::TwoPair, HandRankClass::AcesAndQueens),
        ("AS AD QS QH 2♥", 2489, HandRankName::TwoPair, HandRankClass::AcesAndQueens),
        ("AS AD JS JH K♥", 2490, HandRankName::TwoPair, HandRankClass::AcesAndJacks),
        ("AS AD JS JH 2♥", 2500, HandRankName::TwoPair, HandRankClass::AcesAndJacks),
        ("AS AD TS TH K♥", 2501, HandRankName::TwoPair, HandRankClass::AcesAndTens),
        ("AS AD TS TH 2♥", 2511, HandRankName::TwoPair, HandRankClass::AcesAndTens),
        ("AS AD 9S 9H K♥", 2512, HandRankName::TwoPair, HandRankClass::AcesAndNines),
        ("AS AD 9S 9H 2♥", 2522, HandRankName::TwoPair, HandRankClass::AcesAndNines),
        ("AS AD 8S 8H K♥", 2523, HandRankName::TwoPair, HandRankClass::AcesAndEights),
        ("AS AD 8S 8H 2♥", 2533, HandRankName::TwoPair, HandRankClass::AcesAndEights),
        ("AS AD 7S 7H K♥", 2534, HandRankName::TwoPair, HandRankClass::AcesAndSevens),
        ("AS AD 7S 7H 2♥", 2544, HandRankName::TwoPair, HandRankClass::AcesAndSevens),
        ("AS AD 6S 6H K♥", 2545, HandRankName::TwoPair, HandRankClass::AcesAndSixes),
        ("AS AD 6S 6H 2♥", 2555, HandRankName::TwoPair, HandRankClass::AcesAndSixes),
        ("AS AD 5S 5H K♥", 2556, HandRankName::TwoPair, HandRankClass::AcesAndFives),
        ("AS AD 5S 5H 2♥", 2566, HandRankName::TwoPair, HandRankClass::AcesAndFives),
        ("AS AD 4S 4H K♥", 2567, HandRankName::TwoPair, HandRankClass::AcesAndFours),
        ("AS AD 4S 4H 2♥", 2577, HandRankName::TwoPair, HandRankClass::AcesAndFours),
        ("AS AD 3S 3H K♥", 2578, HandRankName::TwoPair, HandRankClass::AcesAndTreys),
        ("AS AD 3S 3H 2♥", 2588, HandRankName::TwoPair, HandRankClass::AcesAndTreys),
        ("AS AD 2S 2H K♥", 2589, HandRankName::TwoPair, HandRankClass::AcesAndDeuces),
        ("AS AD 2S 2H 3♥", 2599, HandRankName::TwoPair, HandRankClass::AcesAndDeuces),
        ("KS KH Q♥ QD AC", 2600, HandRankName::TwoPair, HandRankClass::KingsAndQueens),
        ("KS KH Q♥ QD 2♥", 2610, HandRankName::TwoPair, HandRankClass::KingsAndQueens),
        ("KS KH J♥ JD AC", 2611, HandRankName::TwoPair, HandRankClass::KingsAndJacks),
        ("KS KH J♥ JD 2♥", 2621, HandRankName::TwoPair, HandRankClass::KingsAndJacks),
        ("KS KH T♥ TD AC", 2622, HandRankName::TwoPair, HandRankClass::KingsAndTens),
        ("KS KH T♥ TD 2♥", 2632, HandRankName::TwoPair, HandRankClass::KingsAndTens),
        ("KS KH 9♥ 9D AC", 2633, HandRankName::TwoPair, HandRankClass::KingsAndNines),
        ("KS KH 9♥ 9D 2♥", 2643, HandRankName::TwoPair, HandRankClass::KingsAndNines),
        ("KS KH 8♥ 8D AC", 2644, HandRankName::TwoPair, HandRankClass::KingsAndEights),
        ("KS KH 8♥ 8D 2♥", 2654, HandRankName::TwoPair, HandRankClass::KingsAndEights),
        ("KS KH 7♥ 7D AC", 2655, HandRankName::TwoPair, HandRankClass::KingsAndSevens),
        ("KS KH 7♥ 7D 2♥", 2665, HandRankName::TwoPair, HandRankClass::KingsAndSevens),
        ("KS KH 6♥ 6D AC", 2666, HandRankName::TwoPair, HandRankClass::KingsAndSixes),
        ("KS KH 6♥ 6D 2♥", 2676, HandRankName::TwoPair, HandRankClass::KingsAndSixes),
        ("KS KH 5♥ 5D AC", 2677, HandRankName::TwoPair, HandRankClass::KingsAndFives),
        ("KS KH 5♥ 5D 2♥", 2687, HandRankName::TwoPair, HandRankClass::KingsAndFives),
        ("KS KH 4♥ 4D AC", 2688, HandRankName::TwoPair, HandRankClass::KingsAndFours),
        ("KS KH 4♥ 4D 2♥", 2698, HandRankName::TwoPair, HandRankClass::KingsAndFours),
        ("KS KH 3♥ 3D AC", 2699, HandRankName::TwoPair, HandRankClass::KingsAndTreys),
        ("KS KH 3♥ 3D 2♥", 2709, HandRankName::TwoPair, HandRankClass::KingsAndTreys),
        ("KS KH 2♥ 2D AC", 2710, HandRankName::TwoPair, HandRankClass::KingsAndDeuces),
        ("KS KH 2♥ 2D 3♥", 2720, HandRankName::TwoPair, HandRankClass::KingsAndDeuces),
        ("QS QH J♥ JD AC", 2721, HandRankName::TwoPair, HandRankClass::QueensAndJacks),
        ("QS QH J♥ JD 2♥", 2731, HandRankName::TwoPair, HandRankClass::QueensAndJacks),
        ("QS QH T♥ TD AC", 2732, HandRankName::TwoPair, HandRankClass::QueensAndTens),
        ("QS QH T♥ TD 2♥", 2742, HandRankName::TwoPair, HandRankClass::QueensAndTens),
        ("QS QH 9♥ 9D AC", 2743, HandRankName::TwoPair, HandRankClass::QueensAndNines),
        ("QS QH 9♥ 9D 2♥", 2753, HandRankName::TwoPair, HandRankClass::QueensAndNines),
        ("QS QH 8♥ 8D AC", 2754, HandRankName::TwoPair, HandRankClass::QueensAndEights),
        ("QS QH 8♥ 8D 2♥", 2764, HandRankName::TwoPair, HandRankClass::QueensAndEights),
        ("QS QH 7♥ 7D AC", 2765, HandRankName::TwoPair, HandRankClass::QueensAndSevens),
        ("QS QH 7♥ 7D 2♥", 2775, HandRankName::TwoPair, HandRankClass::QueensAndSevens),
        ("QS QH 6♥ 6D AC", 2776, HandRankName::TwoPair, HandRankClass::QueensAndSixes),
        ("QS QH 6♥ 6D 2♥", 2786, HandRankName::TwoPair, HandRankClass::QueensAndSixes),
        ("QS QH 5♥ 5D AC", 2787, HandRankName::TwoPair, HandRankClass::QueensAndFives),
        ("QS QH 5♥ 5D 2♥", 2797, HandRankName::TwoPair, HandRankClass::QueensAndFives),
        ("QS QH 4♥ 4D AC", 2798, HandRankName::TwoPair, HandRankClass::QueensAndFours),
        ("QS QH 4♥ 4D 2♥", 2808, HandRankName::TwoPair, HandRankClass::QueensAndFours),
        ("QS QH 3♥ 3D AC", 2809, HandRankName::TwoPair, HandRankClass::QueensAndTreys),
        ("QS QH 3♥ 3D 2♥", 2819, HandRankName::TwoPair, HandRankClass::QueensAndTreys),
        ("QS QH 2♥ 2D AC", 2820, HandRankName::TwoPair, HandRankClass::QueensAndDeuces),
        ("QS QH 2♥ 2D 3♥", 2830, HandRankName::TwoPair, HandRankClass::QueensAndDeuces),
        ("JS JH T♥ TD AC", 2831, HandRankName::TwoPair, HandRankClass::JacksAndTens),
        ("JS JH T♥ TD 2♥", 2841, HandRankName::TwoPair, HandRankClass::JacksAndTens),
        ("JS JH 9♥ 9D AC", 2842, HandRankName::TwoPair, HandRankClass::JacksAndNines),
        ("JS JH 9♥ 9D 2♥", 2852, HandRankName::TwoPair, HandRankClass::JacksAndNines),
        ("JS JH 8♥ 8D AC", 2853, HandRankName::TwoPair, HandRankClass::JacksAndEights),
        ("JS JH 8♥ 8D 2♥", 2863, HandRankName::TwoPair, HandRankClass::JacksAndEights),
        ("JS JH 7♥ 7D AC", 2864, HandRankName::TwoPair, HandRankClass::JacksAndSevens),
        ("JS JH 7♥ 7D 2♥", 2874, HandRankName::TwoPair, HandRankClass::JacksAndSevens),
        ("JS JH 6♥ 6D AC", 2875, HandRankName::TwoPair, HandRankClass::JacksAndSixes),
        ("JS JH 6♥ 6D 2♥", 2885, HandRankName::TwoPair, HandRankClass::JacksAndSixes),
        ("JS JH 5♥ 5D AC", 2886, HandRankName::TwoPair, HandRankClass::JacksAndFives),
        ("JS JH 5♥ 5D 2♥", 2896, HandRankName::TwoPair, HandRankClass::JacksAndFives),
        ("JS JH 4♥ 4D AC", 2897, HandRankName::TwoPair, HandRankClass::JacksAndFours),
        ("JS JH 4♥ 4D 2♥", 2907, HandRankName::TwoPair, HandRankClass::JacksAndFours),
        ("JS JH 3♥ 3D AC", 2908, HandRankName::TwoPair, HandRankClass::JacksAndTreys),
        ("JS JH 3♥ 3D 2♥", 2918, HandRankName::TwoPair, HandRankClass::JacksAndTreys),
        ("JS JH 2♥ 2D AC", 2919, HandRankName::TwoPair, HandRankClass::JacksAndDeuces),
        ("JS JH 2♥ 2D 3♥", 2929, HandRankName::TwoPair, HandRankClass::JacksAndDeuces),
        ("TS TH 9♥ 9D AC", 2930, HandRankName::TwoPair, HandRankClass::TensAndNines),
        ("TS TH 9♥ 9D 2♥", 2940, HandRankName::TwoPair, HandRankClass::TensAndNines),
        ("TS TH 8♥ 8D AC", 2941, HandRankName::TwoPair, HandRankClass::TensAndEights),
        ("TS TH 8♥ 8D 2♥", 2951, HandRankName::TwoPair, HandRankClass::TensAndEights),
        ("TS TH 7♥ 7D AC", 2952, HandRankName::TwoPair, HandRankClass::TensAndSevens),
        ("TS TH 7♥ 7D 2♥", 2962, HandRankName::TwoPair, HandRankClass::TensAndSevens),
        ("TS TH 6♥ 6D AC", 2963, HandRankName::TwoPair, HandRankClass::TensAndSixes),
        ("TS TH 6♥ 6D 2♥", 2973, HandRankName::TwoPair, HandRankClass::TensAndSixes),
        ("TS TH 5♥ 5D AC", 2974, HandRankName::TwoPair, HandRankClass::TensAndFives),
        ("TS TH 5♥ 5D 2♥", 2984, HandRankName::TwoPair, HandRankClass::TensAndFives),
        ("TS TH 4♥ 4D AC", 2985, HandRankName::TwoPair, HandRankClass::TensAndFours),
        ("TS TH 4♥ 4D 2♥", 2995, HandRankName::TwoPair, HandRankClass::TensAndFours),
        ("TS TH 3♥ 3D AC", 2996, HandRankName::TwoPair, HandRankClass::TensAndTreys),
        ("TS TH 3♥ 3D 2♥", 3006, HandRankName::TwoPair, HandRankClass::TensAndTreys),
        ("TS TH 2♥ 2D AC", 3007, HandRankName::TwoPair, HandRankClass::TensAndDeuces),
        ("TS TH 2♥ 2D 3♥", 3017, HandRankName::TwoPair, HandRankClass::TensAndDeuces),
        ("9S 9H 8♥ 8D AC", 3018, HandRankName::TwoPair, HandRankClass::NinesAndEights),
        ("9S 9H 8♥ 8D 2♥", 3028, HandRankName::TwoPair, HandRankClass::NinesAndEights),
        ("9S 9H 7♥ 7D AC", 3029, HandRankName::TwoPair, HandRankClass::NinesAndSevens),
        ("9S 9H 7♥ 7D 2♥", 3039, HandRankName::TwoPair, HandRankClass::NinesAndSevens),
        ("9S 9H 6♥ 6D AC", 3040, HandRankName::TwoPair, HandRankClass::NinesAndSixes),
        ("9S 9H 6♥ 6D 2♥", 3050, HandRankName::TwoPair, HandRankClass::NinesAndSixes),
        ("9S 9H 5♥ 5D AC", 3051, HandRankName::TwoPair, HandRankClass::NinesAndFives),
        ("9S 9H 5♥ 5D 2♥", 3061, HandRankName::TwoPair, HandRankClass::NinesAndFives),
        ("9S 9H 4♥ 4D AC", 3062, HandRankName::TwoPair, HandRankClass::NinesAndFours),
        ("9S 9H 4♥ 4D 2♥", 3072, HandRankName::TwoPair, HandRankClass::NinesAndFours),
        ("9S 9H 3♥ 3D AC", 3073, HandRankName::TwoPair, HandRankClass::NinesAndTreys),
        ("9S 9H 3♥ 3D 2♥", 3083, HandRankName::TwoPair, HandRankClass::NinesAndTreys),
        ("9S 9H 2♥ 2D AC", 3084, HandRankName::TwoPair, HandRankClass::NinesAndDeuces),
        ("9S 9H 2♥ 2D 3♥", 3094, HandRankName::TwoPair, HandRankClass::NinesAndDeuces),
        ("8S 8H 7♥ 7D AC", 3095, HandRankName::TwoPair, HandRankClass::EightsAndSevens),
        ("8S 8H 7♥ 7D 2♥", 3105, HandRankName::TwoPair, HandRankClass::EightsAndSevens),
        ("8S 8H 6♥ 6D AC", 3106, HandRankName::TwoPair, HandRankClass::EightsAndSixes),
        ("8S 8H 6♥ 6D 2♥", 3116, HandRankName::TwoPair, HandRankClass::EightsAndSixes),
        ("8S 8H 5♥ 5D AC", 3117, HandRankName::TwoPair, HandRankClass::EightsAndFives),
        ("8S 8H 5♥ 5D 2♥", 3127, HandRankName::TwoPair, HandRankClass::EightsAndFives),
        ("8S 8H 4♥ 4D AC", 3128, HandRankName::TwoPair, HandRankClass::EightsAndFours),
        ("8S 8H 4♥ 4D 2♥", 3138, HandRankName::TwoPair, HandRankClass::EightsAndFours),
        ("8S 8H 3♥ 3D AC", 3139, HandRankName::TwoPair, HandRankClass::EightsAndTreys),
        ("8S 8H 3♥ 3D 2♥", 3149, HandRankName::TwoPair, HandRankClass::EightsAndTreys),
        ("8S 8H 2♥ 2D AC", 3150, HandRankName::TwoPair, HandRankClass::EightsAndDeuces),
        ("8S 8H 2♥ 2D 3♥", 3160, HandRankName::TwoPair, HandRankClass::EightsAndDeuces),
        ("7♥ 7D 6S 6C A♥", 3161, HandRankName::TwoPair, HandRankClass::SevensAndSixes),
        ("7♥ 7D 6S 6♥ 2D", 3171, HandRankName::TwoPair, HandRankClass::SevensAndSixes),
        ("7♥ 7D 5S 5C A♥", 3172, HandRankName::TwoPair, HandRankClass::SevensAndFives),
        ("7♥ 7D 5S 5♥ 2D", 3182, HandRankName::TwoPair, HandRankClass::SevensAndFives),
        ("7♥ 7D 4S 4C A♥", 3183, HandRankName::TwoPair, HandRankClass::SevensAndFours),
        ("7♥ 7D 4S 4♥ 2D", 3193, HandRankName::TwoPair, HandRankClass::SevensAndFours),
        ("7♥ 7D 3S 3C A♥", 3194, HandRankName::TwoPair, HandRankClass::SevensAndTreys),
        ("7♥ 7D 3S 3♥ 2D", 3204, HandRankName::TwoPair, HandRankClass::SevensAndTreys),
        ("7♥ 7D 2S 2C A♥", 3205, HandRankName::TwoPair, HandRankClass::SevensAndDeuces),
        ("7♥ 7D 2S 2♥ 3D", 3215, HandRankName::TwoPair, HandRankClass::SevensAndDeuces),
        ("6♥ 6D 5S 5C A♥", 3216, HandRankName::TwoPair, HandRankClass::SixesAndFives),
        ("6♥ 6D 5S 5♥ 2D", 3226, HandRankName::TwoPair, HandRankClass::SixesAndFives),
        ("6♥ 6D 4S 4C A♥", 3227, HandRankName::TwoPair, HandRankClass::SixesAndFours),
        ("6♥ 6D 4S 4♥ 2D", 3237, HandRankName::TwoPair, HandRankClass::SixesAndFours),
        ("6♥ 6D 3S 3C A♥", 3238, HandRankName::TwoPair, HandRankClass::SixesAndTreys),
        ("6♥ 6D 3S 3♥ 2D", 3248, HandRankName::TwoPair, HandRankClass::SixesAndTreys),
        ("6♥ 6D 2S 2C A♥", 3249, HandRankName::TwoPair, HandRankClass::SixesAndDeuces),
        ("6♥ 6D 2S 2♥ 3D", 3259, HandRankName::TwoPair, HandRankClass::SixesAndDeuces),
        ("5S 5C 4S 4D A♥", 3260, HandRankName::TwoPair, HandRankClass::FivesAndFours),
        ("5S 5♥ 4S 4C 2D", 3270, HandRankName::TwoPair, HandRankClass::FivesAndFours),
        ("5S 5C 3S 3D A♥", 3271, HandRankName::TwoPair, HandRankClass::FivesAndTreys),
        ("5S 5♥ 3S 3C 2D", 3281, HandRankName::TwoPair, HandRankClass::FivesAndTreys),
        ("5S 5C 2S 2D A♥", 3282, HandRankName::TwoPair, HandRankClass::FivesAndDeuces),
        ("5S 5♥ 2S 2C 3D", 3292, HandRankName::TwoPair, HandRankClass::FivesAndDeuces),
        ("4♥ 4D 3S 3C A♥", 3293, HandRankName::TwoPair, HandRankClass::FoursAndTreys),
        ("4♥ 4D 3S 3♥ 2D", 3303, HandRankName::TwoPair, HandRankClass::FoursAndTreys),
    ];
    for (index, value, name, class) in cases {
        let hand = Five::try_from(index).unwrap();
        let hand_rank = hand.hand_rank();
        assert_eq!(value, hand_rank.value, "{}", index);
        assert_eq!(name, hand_rank.name, "{}", index);
        assert_eq!(class, hand_rank.class, "{}", index);
    }
}

#[test]
fn hand_rank_fixtures_3() {
    let cases: Vec<(&str, u16, HandRankName, HandRankClass)> = vec![
        ("4♥ 4D 2S 2C A♥", 3304, HandRankName::TwoPair, HandRankClass::FoursAndDeuces),
        ("4♥ 4D 2S 2♥ 3D", 3314, HandRankName::TwoPair, HandRankClass::FoursAndDeuces),
        ("3♥ 3D 2S 2C A♥", 3315, HandRankName::TwoPair, HandRankClass::TreysAndDeuces),
        ("3♥ 3D 2S 2♥ 4D", 3325, HandRankName::TwoPair, HandRankClass::TreysAndDeuces),
        ("A♥ AD KS Q♥ JD", 3326, HandRankName::Pair, HandRankClass::PairOfAces),
        ("A♥ AD 4S 3♥ 2D", 3545, HandRankName::Pair, HandRankClass::PairOfAces),
        ("K♥ KD AS Q♥ JD", 3546, HandRankName::Pair, HandRankClass::PairOfKings),
        ("K♥ KD 4S 3♥ 2D", 3765, HandRankName::Pair, HandRankClass::PairOfKings),
        ("Q♥ QD AS K♥ JD", 3766, HandRankName::Pair, HandRankClass::PairOfQueens),
        ("Q♥ QD 4S 3♥ 2D", 3985, HandRankName::Pair, HandRankClass::PairOfQueens),
        ("J♥ JD AS K♥ QD", 3986, HandRankName::Pair, HandRankClass::PairOfJacks),
        ("J♥ JD 4S 3♥ 2D", 4205, HandRankName::Pair, HandRankClass::PairOfJacks),
        ("T♥ TD AS K♥ QD", 4206, HandRankName::Pair, HandRankClass::PairOfTens),
        ("T♥ TD 4S 3♥ 2D", 4425, HandRankName::Pair, HandRankClass::PairOfTens),
        ("9♥ 9D AS K♥ QD", 4426, HandRankName::Pair, HandRankClass::PairOfNines),
        ("9♥ 9D 4S 3♥ 2D", 4645, HandRankName::Pair, HandRankClass::PairOfNines),
        ("8♥ 8D AS K♥ QD", 4646, HandRankName::Pair, HandRankClass::PairOfEights),
        ("8♥ 8D 4S 3♥ 2D", 4865, HandRankName::Pair, HandRankClass::PairOfEights),
        ("7♥ 7D AS K♥ QD", 4866, HandRankName::Pair, HandRankClass::PairOfSevens),
        ("7♥ 7D 4S 3♥ 2D", 5085, HandRankName::Pair, HandRankClass::PairOfSevens),
        ("6♥ 6D AS K♥ QD", 5086, HandRankName::Pair, HandRankClass::PairOfSixes),
        ("6♥ 6D 4S 3♥ 2D", 5305, HandRankName::Pair, HandRankClass::PairOfSixes),
        ("5♥ 5D AS K♥ QD", 5306, HandRankName::Pair, HandRankClass::PairOfFives),
        ("5♥ 5D 4S 3♥ 2D", 5525, HandRankName::Pair, HandRankClass::PairOfFives),
        ("4♥ 4D AS K♥ QD", 5526, HandRankName::Pair, HandRankClass::PairOfFours),
        ("4♥ 4D 5S 3♥ 2D", 5745, HandRankName::Pair, HandRankClass::PairOfFours),
        ("3♥ 3D AS K♥ QD", 5746, HandRankName::Pair, HandRankClass::PairOfTreys),
        ("3♥ 3D 5S 4♥ 2D", 5965, HandRankName::Pair, HandRankClass::PairOfTreys),
        ("2♥ 2D AS K♥ QD", 5966, HandRankName::Pair, HandRankClass::PairOfDeuces),
        ("2♥ 2D 5S 4♥ 3D", 6185, HandRankName::Pair, HandRankClass::PairOfDeuces),
        ("AD KD Q♥ JD 9D", 6186, HandRankName::HighCard, HandRankClass::AceHigh),
        ("AD 6D 4♥ 3D 2D", 6678, HandRankName::HighCard, HandRankClass::AceHigh),
        ("KD Q♥ JD TD 8C", 6679, HandRankName::HighCard, HandRankClass::KingHigh),
        ("KD 5D 4♥ 3D 2D", 7007, HandRankName::HighCard, HandRankClass::KingHigh),
        ("Q♥ JD TD 9C 7D", 7008, HandRankName::HighCard, HandRankClass::QueenHigh),
        ("QD 5D 4♥ 3D 2D", 7216, HandRankName::HighCard, HandRankClass::QueenHigh),
        ("JD TD 9C 8D 6C", 7217, HandRankName::HighCard, HandRankClass::JackHigh),
        ("JD 5D 4♥ 3D 2D", 7341, HandRankName::HighCard, HandRankClass::JackHigh),
        ("TD 9C 8D 7C 5S", 7342, HandRankName::HighCard, HandRankClass::TenHigh),
        ("TD 5D 4♥ 3D 2D", 7410, HandRankName::HighCard, HandRankClass::TenHigh),
        ("9C 8D 7C 6S 4D", 7411, HandRankName::HighCard, HandRankClass::NineHigh),
        ("9D 5D 4♥ 3D 2D", 7444, HandRankName::HighCard, HandRankClass::NineHigh),
        ("8D 7C 6S 5D 3H", 7445, HandRankName::HighCard, HandRankClass::EightHigh),
        ("8D 5D 4♥ 3D 2D", 7458, HandRankName::HighCard, HandRankClass::EightHigh),
        ("7C 6S 5D 4H 2C", 7459, HandRankName::HighCard, HandRankClass::SevenHigh),
        ("7D 5D 4♥ 3D 2D", 7462, HandRankName::HighCard, HandRankClass::SevenHigh),
        ("A♠ A♠ Q♠ J♠ T♠", 0, HandRankName::Invalid, HandRankClass::Invalid),
        ("7S 6S  5S 4S 3S", 8, HandRankName::StraightFlush, HandRankClass::SevenHighStraightFlush),
    ];
    for (index, value, name, class) in cases {
        let hand = Five::try_from(index).unwrap();
        let hand_rank = hand.hand_rank();
        assert_eq!(value, hand_rank.value, "{}", index);
        assert_eq!(name, hand_rank.name, "{}", index);
        assert_eq!(class, hand_rank.class, "{}", index);
    }
}
