use ckc_rs::cards::binary_card::{BinaryCard, BC64};
use ckc_rs::cards::five::Five;
use ckc_rs::cards::seven::Seven;
use ckc_rs::cards::{HandRanker, HandValidator, Permutator};
use ckc_rs::deck::Deck;
use ckc_rs::evaluate;
use ckc_rs::games::razz::Razz;
use ckc_rs::hand_rank::HandRank;
use ckc_rs::lookups;
use ckc_rs::CardNumber;

/// Every deck position yields a distinct legal card and positions past
/// the deck are blank.
#[test]
fn deck_positions() {
    let mut seen: Vec<u32> = Vec::new();
    for i in 0..Deck::len() {
        let card = Deck::get(i);
        assert_ne!(card, CardNumber::BLANK);
        assert_eq!(card, CardNumber::filter(card));
        assert!(!seen.contains(&card));
        seen.push(card);
    }
    assert_eq!(52, Deck::len());
    assert_eq!(Deck::get(Deck::len()), CardNumber::BLANK);
    assert_eq!(Deck::get(0), CardNumber::ACE_SPADES);
    assert_eq!(Deck::get(51), CardNumber::DEUCE_CLUBS);
}

/// Rebuilding a rank from every value reproduces the value and its
/// classifications.
#[test]
fn round_trip_all_values() {
    for v in 0..=7462u16 {
        let rank = HandRank::from(v);
        assert_eq!(v, rank.value);
        assert!(rank.is_a_valid_hand_rank());
        assert_eq!(rank.name, HandRank::determine_name(&v));
        assert_eq!(rank.class, HandRank::determine_class(&v));
    }
    assert!(HandRank::from(7463).is_invalid());
}

/// Every set of five distinct legal cards lands in [1, 7462]; a sample
/// strides through the deck to keep the run quick.
#[test]
fn five_distinct_cards_rank_in_range() {
    let mut checked = 0;
    let mut step = 0usize;
    for a in 0..48 {
        for b in (a + 1)..52 {
            step += 1;
            if step % 23 != 0 {
                continue;
            }
            let c = (b + 1) % 52;
            let d = (b + 2) % 52;
            let e = (b + 3) % 52;
            let mut idx = vec![a, b, c, d, e];
            idx.sort_unstable();
            idx.dedup();
            if idx.len() != 5 {
                continue;
            }
            let hand = [
                Deck::get(idx[0]),
                Deck::get(idx[1]),
                Deck::get(idx[2]),
                Deck::get(idx[3]),
                Deck::get(idx[4]),
            ];
            let value = evaluate::five_cards(hand);
            assert!(1 <= value && value <= 7462, "{:?} -> {}", idx, value);
            checked += 1;
        }
    }
    assert!(checked > 40);
}

/// A duplicated card makes the hand unrankable no matter where the twin
/// sits.
#[test]
fn duplicate_card_always_unrankable() {
    let base = [
        CardNumber::JACK_CLUBS,
        CardNumber::DEUCE_CLUBS,
        CardNumber::TREY_CLUBS,
        CardNumber::KING_SPADES,
        CardNumber::JACK_CLUBS,
    ];
    for i in 0..5 {
        for j in 0..5 {
            if i == j {
                continue;
            }
            let mut hand = base;
            hand[j] = hand[i];
            assert_eq!(0, evaluate::five_cards(hand));
        }
    }
}

/// The reported best value of a seven-card hand equals the minimum
/// nonzero value over all 21 subsets, and the returned hand re-evaluates
/// to the same value.
#[test]
fn seven_best_is_min_nonzero_subset() {
    let hands = [
        "T\u{2660} A\u{2660} K\u{2660} J\u{2660} Q\u{2660} 9\u{2660} 8\u{2660}",
        "9S 8D 7C 5D 4\u{2665} 3D 2D",
        "AS AH AD AC KS QD JC",
        "2S 2H 2D 3C 3D 3H 4S",
        "KD QC JH T\u{2660} 9C 2D 2C",
    ];
    for index in hands {
        let seven = Seven::try_from(index).unwrap();
        let (value, best) = seven.hand_rank_value_and_hand();

        let mut min_nonzero = 0u16;
        for perm in Seven::FIVE_CARD_PERMUTATIONS {
            let v = seven.five_from_permutation(perm).hand_rank_value();
            if v != 0 && (min_nonzero == 0 || v < min_nonzero) {
                min_nonzero = v;
            }
        }
        assert_eq!(value, min_nonzero, "{}", index);
        assert_eq!(value, best.hand_rank_value(), "{}", index);
        let sorted = best.sort();
        assert_eq!(best, sorted, "{}", index);
    }
}

/// Peeling a valid card set until it is empty yields exactly
/// `number_of_cards` distinct cards whose union rebuilds the set.
#[test]
fn peel_decomposes_a_set() {
    let sets = [
        BinaryCard::ACES,
        BinaryCard::ALL,
        BinaryCard::ACE_SPADES,
        BinaryCard::from_index("AS KH QD JC TS 9H 2C"),
        BinaryCard::KINGS | BinaryCard::DEUCES,
    ];
    for set in sets {
        assert!(set.is_valid());
        let expected = set.number_of_cards();
        let mut rest = set;
        let mut peeled: Vec<BinaryCard> = Vec::new();
        let mut union = BinaryCard::BLANK;
        loop {
            let card = rest.peel();
            if card == BinaryCard::BLANK {
                break;
            }
            assert!(card.is_single_card());
            assert!(!peeled.contains(&card));
            assert!(set.has(card));
            union = union.fold_in(card);
            peeled.push(card);
        }
        assert_eq!(expected as usize, peeled.len());
        assert_eq!(union, set);
        assert_eq!(0, rest);
    }
}

/// The straight test and the table construction agree: a signature of
/// five distinct ranks takes a straight band exactly when its bit span is
/// four steps or it is the wheel. This pins the coupling between the
/// padding constant and the thirteen-bit rank field.
#[test]
fn straight_rule_matches_tables() {
    let (flushes, unique) = lookups::flush_and_unique_tables();
    for q in 0..7937u32 {
        let five_bits = q.count_ones() == 5;
        let span_straight = five_bits
            && ((q.trailing_zeros() + q.leading_zeros() == Five::STRAIGHT_PADDING)
                || q == Five::WHEEL_OR_BITS);
        let f = flushes[q as usize];
        let u = unique[q as usize];
        if !five_bits {
            assert_eq!(0, f);
            assert_eq!(0, u);
        } else if span_straight {
            assert!(1 <= f && f <= 10, "{}", q);
            assert!(1600 <= u && u <= 1609, "{}", q);
        } else {
            assert!(323 <= f && f <= 1599, "{}", q);
            assert!(6186 <= u && u <= 7462, "{}", q);
        }
    }
}

/// The paired-hand tables hold all 4888 entries, strictly ascending by
/// product, with values inside the paired bands.
#[test]
fn product_tables_are_sound() {
    let (products, values) = lookups::products_and_values();
    assert_eq!(4888, products.len());
    assert_eq!(4888, values.len());
    for i in 1..products.len() {
        assert!(products[i - 1] < products[i], "{}", i);
    }
    assert_eq!(48, products[0]);
    assert_eq!(104_553_157, products[4887]);
    for &v in values.iter() {
        assert!((11 <= v && v <= 322) || (1610 <= v && v <= 6185), "{}", v);
    }
}

/// Binary search over the product table finds present keys and reports
/// index zero for missing ones.
#[test]
fn find_in_products_looks_up_keys() {
    let (products, _values) = lookups::products_and_values();
    for probe in [0usize, 1200, 2444, 4887] {
        let key = products[probe] as usize;
        assert_eq!(probe, Five::find_in_products(&products, key));
    }
    assert_eq!(0, Five::find_in_products(&products, 1));
    assert_eq!(0, Five::find_in_products(&products, usize::MAX));
}

/// The helpers of the evaluate module agree with the hand methods.
#[test]
fn evaluate_helpers() {
    let royal = [
        CardNumber::ACE_SPADES,
        CardNumber::KING_SPADES,
        CardNumber::QUEEN_SPADES,
        CardNumber::JACK_SPADES,
        CardNumber::TEN_SPADES,
    ];
    assert!(evaluate::is_flush(royal));
    assert_eq!(7936, evaluate::or_rank_bits(royal));
    assert_eq!(evaluate::POSSIBLE_COMBINATIONS, Five::POSSIBLE_COMBINATIONS);
}

/// The wheel signature of the lowball game matches the evaluator's wheel.
#[test]
fn razz_wheel_signature() {
    let five = Five::try_from("2D 3C 4D A\u{2660} 5H").unwrap();
    assert_eq!(Razz::WHEEL, five.or_rank_bits());
    assert_eq!(Razz::WHEEL, Five::WHEEL_OR_BITS);
    assert!(five.is_wheel());
}

/// Fewer than five indexes parse to nothing; garbage indexes parse to
/// blank cards.
#[test]
fn parse_five_from_index() {
    assert!(ckc_rs::parse::five_from_index("AS KS QS JS").is_none());
    let parsed = ckc_rs::parse::five_from_index("AS KS QS JS TS").unwrap();
    assert_eq!(parsed[0], CardNumber::ACE_SPADES);
    assert_eq!(parsed[4], CardNumber::TEN_SPADES);
    let blanked = ckc_rs::parse::five_from_index("AS XX QS JS TS").unwrap();
    assert_eq!(blanked[1], CardNumber::BLANK);
}

#[test]
fn get() {
    let ranks = ["A", "K", "Q", "J", "T", "9", "8", "7", "6", "5", "4", "3", "2"];
    let suits = ["S", "H", "D", "C"];
    let mut expected: Vec<u32> = Vec::new();
    for suit in suits {
        for rank in ranks {
            let index = format!("{rank}{suit}");
            expected.push(<u32 as ckc_rs::PokerCard>::from_index(index.as_str()));
        }
    }
    for i in 0..Deck::len() {
        let card = Deck::get(i);
        assert_eq!(card, expected[i]);
    }
    assert_eq!(52, Deck::len());
    assert_eq!(Deck::get(Deck::len()), CardNumber::BLANK);
}

/// A paired hand evaluates to the same value in any card order, and the
/// validated entry point agrees with the unvalidated one on valid hands.
#[test]
fn paired_evaluation_is_order_independent() {
    let orders = [
        "AS AH AD AC KS",
        "KS AS AH AD AC",
        "AD KS AC AS AH",
        "AC AD AH AS KS",
    ];
    for index in orders {
        let hand = Five::try_from(index).unwrap();
        assert_eq!(11, hand.hand_rank_value(), "{}", index);
        assert_eq!(11, hand.hand_rank_value_validated(), "{}", index);
    }
    let two_pair = Five::try_from("JC 2C 2D JS TS").unwrap();
    let shuffled = Five::try_from("2D JS JC TS 2C").unwrap();
    assert_eq!(two_pair.hand_rank_value(), shuffled.hand_rank_value());
    assert_eq!(
        two_pair.hand_rank_value(),
        two_pair.hand_rank_value_validated()
    );
}
