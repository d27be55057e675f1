use vstd::prelude::*;

use core::cmp::Ordering;

verus! {

/// `HandRankValue` is the canonical strength index of a five-card hand:
/// 1 (royal flush, the best) through 7462 (seven high, the worst), with 0
/// meaning the hand could not be ranked.
pub type HandRankValue = u16;

pub const NO_HAND_RANK_VALUE: HandRankValue = 0;

/// The traditional name of a five-card poker hand.
#[derive(Clone, Copy, Debug, Eq, Hash, PartialEq, Structural)]
pub enum HandRankName {
    StraightFlush,
    FourOfAKind,
    FullHouse,
    Flush,
    Straight,
    ThreeOfAKind,
    TwoPair,
    Pair,
    HighCard,
    Invalid,
}

/// The finer class of a five-card poker hand, one variant per contiguous
/// band of `HandRankValue`s that share the same made hand.
#[derive(Clone, Copy, Debug, Eq, Hash, PartialEq, Structural)]
pub enum HandRankClass {
    RoyalFlush,
    KingHighStraightFlush,
    QueenHighStraightFlush,
    JackHighStraightFlush,
    TenHighStraightFlush,
    NineHighStraightFlush,
    EightHighStraightFlush,
    SevenHighStraightFlush,
    SixHighStraightFlush,
    FiveHighStraightFlush,
    FourAces,
    FourKings,
    FourQueens,
    FourJacks,
    FourTens,
    FourNines,
    FourEights,
    FourSevens,
    FourSixes,
    FourFives,
    FourFours,
    FourTreys,
    FourDeuces,
    AcesOverKings,
    AcesOverQueens,
    AcesOverJacks,
    AcesOverTens,
    AcesOverNines,
    AcesOverEights,
    AcesOverSevens,
    AcesOverSixes,
    AcesOverFives,
    AcesOverFours,
    AcesOverTreys,
    AcesOverDeuces,
    KingsOverAces,
    KingsOverQueens,
    KingsOverJacks,
    KingsOverTens,
    KingsOverNines,
    KingsOverEights,
    KingsOverSevens,
    KingsOverSixes,
    KingsOverFives,
    KingsOverFours,
    KingsOverTreys,
    KingsOverDeuces,
    QueensOverAces,
    QueensOverKings,
    QueensOverJacks,
    QueensOverTens,
    QueensOverNines,
    QueensOverEights,
    QueensOverSevens,
    QueensOverSixes,
    QueensOverFives,
    QueensOverFours,
    QueensOverTreys,
    QueensOverDeuces,
    JacksOverAces,
    JacksOverKings,
    JacksOverQueens,
    JacksOverTens,
    JacksOverNines,
    JacksOverEights,
    JacksOverSevens,
    JacksOverSixes,
    JacksOverFives,
    JacksOverFours,
    JacksOverTreys,
    JacksOverDeuces,
    TensOverAces,
    TensOverKings,
    TensOverQueens,
    TensOverJacks,
    TensOverNines,
    TensOverEights,
    TensOverSevens,
    TensOverSixes,
    TensOverFives,
    TensOverFours,
    TensOverTreys,
    TensOverDeuces,
    NinesOverAces,
    NinesOverKings,
    NinesOverQueens,
    NinesOverJacks,
    NinesOverTens,
    NinesOverEights,
    NinesOverSevens,
    NinesOverSixes,
    NinesOverFives,
    NinesOverFours,
    NinesOverTreys,
    NinesOverDeuces,
    EightsOverAces,
    EightsOverKings,
    EightsOverQueens,
    EightsOverJacks,
    EightsOverTens,
    EightsOverNines,
    EightsOverSevens,
    EightsOverSixes,
    EightsOverFives,
    EightsOverFours,
    EightsOverTreys,
    EightsOverDeuces,
    SevensOverAces,
    SevensOverKings,
    SevensOverQueens,
    SevensOverJacks,
    SevensOverTens,
    SevensOverNines,
    SevensOverEights,
    SevensOverSixes,
    SevensOverFives,
    SevensOverFours,
    SevensOverTreys,
    SevensOverDeuces,
    SixesOverAces,
    SixesOverKings,
    SixesOverQueens,
    SixesOverJacks,
    SixesOverTens,
    SixesOverNines,
    SixesOverEights,
    SixesOverSevens,
    SixesOverFives,
    SixesOverFours,
    SixesOverTreys,
    SixesOverDeuces,
    FivesOverAces,
    FivesOverKings,
    FivesOverQueens,
    FivesOverJacks,
    FivesOverTens,
    FivesOverNines,
    FivesOverEights,
    FivesOverSevens,
    FivesOverSixes,
    FivesOverFours,
    FivesOverTreys,
    FivesOverDeuces,
    FoursOverAces,
    FoursOverKings,
    FoursOverQueens,
    FoursOverJacks,
    FoursOverTens,
    FoursOverNines,
    FoursOverEights,
    FoursOverSevens,
    FoursOverSixes,
    FoursOverFives,
    FoursOverTreys,
    FoursOverDeuces,
    TreysOverAces,
    TreysOverKings,
    TreysOverQueens,
    TreysOverJacks,
    TreysOverTens,
    TreysOverNines,
    TreysOverEights,
    TreysOverSevens,
    TreysOverSixes,
    TreysOverFives,
    TreysOverFours,
    TreysOverDeuces,
    DeucesOverAces,
    DeucesOverKings,
    DeucesOverQueens,
    DeucesOverJacks,
    DeucesOverTens,
    DeucesOverNines,
    DeucesOverEights,
    DeucesOverSevens,
    DeucesOverSixes,
    DeucesOverFives,
    DeucesOverFours,
    DeucesOverTreys,
    AceHighFlush,
    KingHighFlush,
    QueenHighFlush,
    JackHighFlush,
    TenHighFlush,
    NineHighFlush,
    EightHighFlush,
    SevenHighFlush,
    AceHighStraight,
    KingHighStraight,
    QueenHighStraight,
    JackHighStraight,
    TenHighStraight,
    NineHighStraight,
    EightHighStraight,
    SevenHighStraight,
    SixHighStraight,
    FiveHighStraight,
    ThreeAces,
    ThreeKings,
    ThreeQueens,
    ThreeJacks,
    ThreeTens,
    ThreeNines,
    ThreeEights,
    ThreeSevens,
    ThreeSixes,
    ThreeFives,
    ThreeFours,
    ThreeTreys,
    ThreeDeuces,
    AcesAndKings,
    AcesAndQueens,
    AcesAndJacks,
    AcesAndTens,
    AcesAndNines,
    AcesAndEights,
    AcesAndSevens,
    AcesAndSixes,
    AcesAndFives,
    AcesAndFours,
    AcesAndTreys,
    AcesAndDeuces,
    KingsAndQueens,
    KingsAndJacks,
    KingsAndTens,
    KingsAndNines,
    KingsAndEights,
    KingsAndSevens,
    KingsAndSixes,
    KingsAndFives,
    KingsAndFours,
    KingsAndTreys,
    KingsAndDeuces,
    QueensAndJacks,
    QueensAndTens,
    QueensAndNines,
    QueensAndEights,
    QueensAndSevens,
    QueensAndSixes,
    QueensAndFives,
    QueensAndFours,
    QueensAndTreys,
    QueensAndDeuces,
    JacksAndTens,
    JacksAndNines,
    JacksAndEights,
    JacksAndSevens,
    JacksAndSixes,
    JacksAndFives,
    JacksAndFours,
    JacksAndTreys,
    JacksAndDeuces,
    TensAndNines,
    TensAndEights,
    TensAndSevens,
    TensAndSixes,
    TensAndFives,
    TensAndFours,
    TensAndTreys,
    TensAndDeuces,
    NinesAndEights,
    NinesAndSevens,
    NinesAndSixes,
    NinesAndFives,
    NinesAndFours,
    NinesAndTreys,
    NinesAndDeuces,
    EightsAndSevens,
    EightsAndSixes,
    EightsAndFives,
    EightsAndFours,
    EightsAndTreys,
    EightsAndDeuces,
    SevensAndSixes,
    SevensAndFives,
    SevensAndFours,
    SevensAndTreys,
    SevensAndDeuces,
    SixesAndFives,
    SixesAndFours,
    SixesAndTreys,
    SixesAndDeuces,
    FivesAndFours,
    FivesAndTreys,
    FivesAndDeuces,
    FoursAndTreys,
    FoursAndDeuces,
    TreysAndDeuces,
    PairOfAces,
    PairOfKings,
    PairOfQueens,
    PairOfJacks,
    PairOfTens,
    PairOfNines,
    PairOfEights,
    PairOfSevens,
    PairOfSixes,
    PairOfFives,
    PairOfFours,
    PairOfTreys,
    PairOfDeuces,
    AceHigh,
    KingHigh,
    QueenHigh,
    JackHigh,
    TenHigh,
    NineHigh,
    EightHigh,
    SevenHigh,
    Invalid,
}

/// The name band an evaluated value falls in: the 7462 rank values are
/// partitioned into nine contiguous bands, and everything outside
/// `[1, 7462]` is invalid.
pub open spec fn spec_determine_name(v: HandRankValue) -> HandRankName {
    if v == 0 { HandRankName::Invalid }
    else if v <= 10u16 { HandRankName::StraightFlush }
    else if v <= 166u16 { HandRankName::FourOfAKind }
    else if v <= 322u16 { HandRankName::FullHouse }
    else if v <= 1599u16 { HandRankName::Flush }
    else if v <= 1609u16 { HandRankName::Straight }
    else if v <= 2467u16 { HandRankName::ThreeOfAKind }
    else if v <= 3325u16 { HandRankName::TwoPair }
    else if v <= 6185u16 { HandRankName::Pair }
    else if v <= 7462u16 { HandRankName::HighCard }
    else { HandRankName::Invalid }
}

/// The class band an evaluated value falls in; each class owns one
/// contiguous sub-range of its name band.
pub open spec fn spec_determine_class(v: HandRankValue) -> HandRankClass {
    if v == 0 { HandRankClass::Invalid }
    else if v <= 1u16 { HandRankClass::RoyalFlush }
    else if v <= 2u16 { HandRankClass::KingHighStraightFlush }
    else if v <= 3u16 { HandRankClass::QueenHighStraightFlush }
    else if v <= 4u16 { HandRankClass::JackHighStraightFlush }
    else if v <= 5u16 { HandRankClass::TenHighStraightFlush }
    else if v <= 6u16 { HandRankClass::NineHighStraightFlush }
    else if v <= 7u16 { HandRankClass::EightHighStraightFlush }
    else if v <= 8u16 { HandRankClass::SevenHighStraightFlush }
    else if v <= 9u16 { HandRankClass::SixHighStraightFlush }
    else if v <= 10u16 { HandRankClass::FiveHighStraightFlush }
    else if v <= 22u16 { HandRankClass::FourAces }
    else if v <= 34u16 { HandRankClass::FourKings }
    else if v <= 46u16 { HandRankClass::FourQueens }
    else if v <= 58u16 { HandRankClass::FourJacks }
    else if v <= 70u16 { HandRankClass::FourTens }
    else if v <= 82u16 { HandRankClass::FourNines }
    else if v <= 94u16 { HandRankClass::FourEights }
    else if v <= 106u16 { HandRankClass::FourSevens }
    else if v <= 118u16 { HandRankClass::FourSixes }
    else if v <= 130u16 { HandRankClass::FourFives }
    else if v <= 142u16 { HandRankClass::FourFours }
    else if v <= 154u16 { HandRankClass::FourTreys }
    else if v <= 166u16 { HandRankClass::FourDeuces }
    else if v <= 167u16 { HandRankClass::AcesOverKings }
    else if v <= 168u16 { HandRankClass::AcesOverQueens }
    else if v <= 169u16 { HandRankClass::AcesOverJacks }
    else if v <= 170u16 { HandRankClass::AcesOverTens }
    else if v <= 171u16 { HandRankClass::AcesOverNines }
    else if v <= 172u16 { HandRankClass::AcesOverEights }
    else if v <= 173u16 { HandRankClass::AcesOverSevens }
    else if v <= 174u16 { HandRankClass::AcesOverSixes }
    else if v <= 175u16 { HandRankClass::AcesOverFives }
    else if v <= 176u16 { HandRankClass::AcesOverFours }
    else if v <= 177u16 { HandRankClass::AcesOverTreys }
    else if v <= 178u16 { HandRankClass::AcesOverDeuces }
    else if v <= 179u16 { HandRankClass::KingsOverAces }
    else if v <= 180u16 { HandRankClass::KingsOverQueens }
    else if v <= 181u16 { HandRankClass::KingsOverJacks }
    else if v <= 182u16 { HandRankClass::KingsOverTens }
    else if v <= 183u16 { HandRankClass::KingsOverNines }
    else if v <= 184u16 { HandRankClass::KingsOverEights }
    else if v <= 185u16 { HandRankClass::KingsOverSevens }
    else if v <= 186u16 { HandRankClass::KingsOverSixes }
    else if v <= 187u16 { HandRankClass::KingsOverFives }
    else if v <= 188u16 { HandRankClass::KingsOverFours }
    else if v <= 189u16 { HandRankClass::KingsOverTreys }
    else if v <= 190u16 { HandRankClass::KingsOverDeuces }
    else if v <= 191u16 { HandRankClass::QueensOverAces }
    else if v <= 192u16 { HandRankClass::QueensOverKings }
    else if v <= 193u16 { HandRankClass::QueensOverJacks }
    else if v <= 194u16 { HandRankClass::QueensOverTens }
    else if v <= 195u16 { HandRankClass::QueensOverNines }
    else if v <= 196u16 { HandRankClass::QueensOverEights }
    else if v <= 197u16 { HandRankClass::QueensOverSevens }
    else if v <= 198u16 { HandRankClass::QueensOverSixes }
    else if v <= 199u16 { HandRankClass::QueensOverFives }
    else if v <= 200u16 { HandRankClass::QueensOverFours }
    else if v <= 201u16 { HandRankClass::QueensOverTreys }
    else if v <= 202u16 { HandRankClass::QueensOverDeuces }
    else if v <= 203u16 { HandRankClass::JacksOverAces }
    else if v <= 204u16 { HandRankClass::JacksOverKings }
    else if v <= 205u16 { HandRankClass::JacksOverQueens }
    else if v <= 206u16 { HandRankClass::JacksOverTens }
    else if v <= 207u16 { HandRankClass::JacksOverNines }
    else if v <= 208u16 { HandRankClass::JacksOverEights }
    else if v <= 209u16 { HandRankClass::JacksOverSevens }
    else if v <= 210u16 { HandRankClass::JacksOverSixes }
    else if v <= 211u16 { HandRankClass::JacksOverFives }
    else if v <= 212u16 { HandRankClass::JacksOverFours }
    else if v <= 213u16 { HandRankClass::JacksOverTreys }
    else if v <= 214u16 { HandRankClass::JacksOverDeuces }
    else if v <= 215u16 { HandRankClass::TensOverAces }
    else if v <= 216u16 { HandRankClass::TensOverKings }
    else if v <= 217u16 { HandRankClass::TensOverQueens }
    else if v <= 218u16 { HandRankClass::TensOverJacks }
    else if v <= 219u16 { HandRankClass::TensOverNines }
    else if v <= 220u16 { HandRankClass::TensOverEights }
    else if v <= 221u16 { HandRankClass::TensOverSevens }
    else if v <= 222u16 { HandRankClass::TensOverSixes }
    else if v <= 223u16 { HandRankClass::TensOverFives }
    else if v <= 224u16 { HandRankClass::TensOverFours }
    else if v <= 225u16 { HandRankClass::TensOverTreys }
    else if v <= 226u16 { HandRankClass::TensOverDeuces }
    else if v <= 227u16 { HandRankClass::NinesOverAces }
    else if v <= 228u16 { HandRankClass::NinesOverKings }
    else if v <= 229u16 { HandRankClass::NinesOverQueens }
    else if v <= 230u16 { HandRankClass::NinesOverJacks }
    else if v <= 231u16 { HandRankClass::NinesOverTens }
    else if v <= 232u16 { HandRankClass::NinesOverEights }
    else if v <= 233u16 { HandRankClass::NinesOverSevens }
    else if v <= 234u16 { HandRankClass::NinesOverSixes }
    else if v <= 235u16 { HandRankClass::NinesOverFives }
    else if v <= 236u16 { HandRankClass::NinesOverFours }
    else if v <= 237u16 { HandRankClass::NinesOverTreys }
    else if v <= 238u16 { HandRankClass::NinesOverDeuces }
    else if v <= 239u16 { HandRankClass::EightsOverAces }
    else if v <= 240u16 { HandRankClass::EightsOverKings }
    else if v <= 241u16 { HandRankClass::EightsOverQueens }
    else if v <= 242u16 { HandRankClass::EightsOverJacks }
    else if v <= 243u16 { HandRankClass::EightsOverTens }
    else if v <= 244u16 { HandRankClass::EightsOverNines }
    else if v <= 245u16 { HandRankClass::EightsOverSevens }
    else if v <= 246u16 { HandRankClass::EightsOverSixes }
    else if v <= 247u16 { HandRankClass::EightsOverFives }
    else if v <= 248u16 { HandRankClass::EightsOverFours }
    else if v <= 249u16 { HandRankClass::EightsOverTreys }
    else if v <= 250u16 { HandRankClass::EightsOverDeuces }
    else if v <= 251u16 { HandRankClass::SevensOverAces }
    else if v <= 252u16 { HandRankClass::SevensOverKings }
    else if v <= 253u16 { HandRankClass::SevensOverQueens }
    else if v <= 254u16 { HandRankClass::SevensOverJacks }
    else if v <= 255u16 { HandRankClass::SevensOverTens }
    else if v <= 256u16 { HandRankClass::SevensOverNines }
    else if v <= 257u16 { HandRankClass::SevensOverEights }
    else if v <= 258u16 { HandRankClass::SevensOverSixes }
    else if v <= 259u16 { HandRankClass::SevensOverFives }
    else if v <= 260u16 { HandRankClass::SevensOverFours }
    else if v <= 261u16 { HandRankClass::SevensOverTreys }
    else if v <= 262u16 { HandRankClass::SevensOverDeuces }
    else if v <= 263u16 { HandRankClass::SixesOverAces }
    else if v <= 264u16 { HandRankClass::SixesOverKings }
    else if v <= 265u16 { HandRankClass::SixesOverQueens }
    else if v <= 266u16 { HandRankClass::SixesOverJacks }
    else if v <= 267u16 { HandRankClass::SixesOverTens }
    else if v <= 268u16 { HandRankClass::SixesOverNines }
    else if v <= 269u16 { HandRankClass::SixesOverEights }
    else if v <= 270u16 { HandRankClass::SixesOverSevens }
    else if v <= 271u16 { HandRankClass::SixesOverFives }
    else if v <= 272u16 { HandRankClass::SixesOverFours }
    else if v <= 273u16 { HandRankClass::SixesOverTreys }
    else if v <= 274u16 { HandRankClass::SixesOverDeuces }
    else if v <= 275u16 { HandRankClass::FivesOverAces }
    else if v <= 276u16 { HandRankClass::FivesOverKings }
    else if v <= 277u16 { HandRankClass::FivesOverQueens }
    else if v <= 278u16 { HandRankClass::FivesOverJacks }
    else if v <= 279u16 { HandRankClass::FivesOverTens }
    else if v <= 280u16 { HandRankClass::FivesOverNines }
    else if v <= 281u16 { HandRankClass::FivesOverEights }
    else if v <= 282u16 { HandRankClass::FivesOverSevens }
    else if v <= 283u16 { HandRankClass::FivesOverSixes }
    else if v <= 284u16 { HandRankClass::FivesOverFours }
    else if v <= 285u16 { HandRankClass::FivesOverTreys }
    else if v <= 286u16 { HandRankClass::FivesOverDeuces }
    else if v <= 287u16 { HandRankClass::FoursOverAces }
    else if v <= 288u16 { HandRankClass::FoursOverKings }
    else if v <= 289u16 { HandRankClass::FoursOverQueens }
    else if v <= 290u16 { HandRankClass::FoursOverJacks }
    else if v <= 291u16 { HandRankClass::FoursOverTens }
    else if v <= 292u16 { HandRankClass::FoursOverNines }
    else if v <= 293u16 { HandRankClass::FoursOverEights }
    else if v <= 294u16 { HandRankClass::FoursOverSevens }
    else if v <= 295u16 { HandRankClass::FoursOverSixes }
    else if v <= 296u16 { HandRankClass::FoursOverFives }
    else if v <= 297u16 { HandRankClass::FoursOverTreys }
    else if v <= 298u16 { HandRankClass::FoursOverDeuces }
    else if v <= 299u16 { HandRankClass::TreysOverAces }
    else if v <= 300u16 { HandRankClass::TreysOverKings }
    else if v <= 301u16 { HandRankClass::TreysOverQueens }
    else if v <= 302u16 { HandRankClass::TreysOverJacks }
    else if v <= 303u16 { HandRankClass::TreysOverTens }
    else if v <= 304u16 { HandRankClass::TreysOverNines }
    else if v <= 305u16 { HandRankClass::TreysOverEights }
    else if v <= 306u16 { HandRankClass::TreysOverSevens }
    else if v <= 307u16 { HandRankClass::TreysOverSixes }
    else if v <= 308u16 { HandRankClass::TreysOverFives }
    else if v <= 309u16 { HandRankClass::TreysOverFours }
    else if v <= 310u16 { HandRankClass::TreysOverDeuces }
    else if v <= 311u16 { HandRankClass::DeucesOverAces }
    else if v <= 312u16 { HandRankClass::DeucesOverKings }
    else if v <= 313u16 { HandRankClass::DeucesOverQueens }
    else if v <= 314u16 { HandRankClass::DeucesOverJacks }
    else if v <= 315u16 { HandRankClass::DeucesOverTens }
    else if v <= 316u16 { HandRankClass::DeucesOverNines }
    else if v <= 317u16 { HandRankClass::DeucesOverEights }
    else if v <= 318u16 { HandRankClass::DeucesOverSevens }
    else if v <= 319u16 { HandRankClass::DeucesOverSixes }
    else if v <= 320u16 { HandRankClass::DeucesOverFives }
    else if v <= 321u16 { HandRankClass::DeucesOverFours }
    else if v <= 322u16 { HandRankClass::DeucesOverTreys }
    else if v <= 815u16 { HandRankClass::AceHighFlush }
    else if v <= 1144u16 { HandRankClass::KingHighFlush }
    else if v <= 1353u16 { HandRankClass::QueenHighFlush }
    else if v <= 1478u16 { HandRankClass::JackHighFlush }
    else if v <= 1547u16 { HandRankClass::TenHighFlush }
    else if v <= 1581u16 { HandRankClass::NineHighFlush }
    else if v <= 1595u16 { HandRankClass::EightHighFlush }
    else if v <= 1599u16 { HandRankClass::SevenHighFlush }
    else if v <= 1600u16 { HandRankClass::AceHighStraight }
    else if v <= 1601u16 { HandRankClass::KingHighStraight }
    else if v <= 1602u16 { HandRankClass::QueenHighStraight }
    else if v <= 1603u16 { HandRankClass::JackHighStraight }
    else if v <= 1604u16 { HandRankClass::TenHighStraight }
    else if v <= 1605u16 { HandRankClass::NineHighStraight }
    else if v <= 1606u16 { HandRankClass::EightHighStraight }
    else if v <= 1607u16 { HandRankClass::SevenHighStraight }
    else if v <= 1608u16 { HandRankClass::SixHighStraight }
    else if v <= 1609u16 { HandRankClass::FiveHighStraight }
    else if v <= 1675u16 { HandRankClass::ThreeAces }
    else if v <= 1741u16 { HandRankClass::ThreeKings }
    else if v <= 1807u16 { HandRankClass::ThreeQueens }
    else if v <= 1873u16 { HandRankClass::ThreeJacks }
    else if v <= 1939u16 { HandRankClass::ThreeTens }
    else if v <= 2005u16 { HandRankClass::ThreeNines }
    else if v <= 2071u16 { HandRankClass::ThreeEights }
    else if v <= 2137u16 { HandRankClass::ThreeSevens }
    else if v <= 2203u16 { HandRankClass::ThreeSixes }
    else if v <= 2269u16 { HandRankClass::ThreeFives }
    else if v <= 2335u16 { HandRankClass::ThreeFours }
    else if v <= 2401u16 { HandRankClass::ThreeTreys }
    else if v <= 2467u16 { HandRankClass::ThreeDeuces }
    else if v <= 2478u16 { HandRankClass::AcesAndKings }
    else if v <= 2489u16 { HandRankClass::AcesAndQueens }
    else if v <= 2500u16 { HandRankClass::AcesAndJacks }
    else if v <= 2511u16 { HandRankClass::AcesAndTens }
    else if v <= 2522u16 { HandRankClass::AcesAndNines }
    else if v <= 2533u16 { HandRankClass::AcesAndEights }
    else if v <= 2544u16 { HandRankClass::AcesAndSevens }
    else if v <= 2555u16 { HandRankClass::AcesAndSixes }
    else if v <= 2566u16 { HandRankClass::AcesAndFives }
    else if v <= 2577u16 { HandRankClass::AcesAndFours }
    else if v <= 2588u16 { HandRankClass::AcesAndTreys }
    else if v <= 2599u16 { HandRankClass::AcesAndDeuces }
    else if v <= 2610u16 { HandRankClass::KingsAndQueens }
    else if v <= 2621u16 { HandRankClass::KingsAndJacks }
    else if v <= 2632u16 { HandRankClass::KingsAndTens }
    else if v <= 2643u16 { HandRankClass::KingsAndNines }
    else if v <= 2654u16 { HandRankClass::KingsAndEights }
    else if v <= 2665u16 { HandRankClass::KingsAndSevens }
    else if v <= 2676u16 { HandRankClass::KingsAndSixes }
    else if v <= 2687u16 { HandRankClass::KingsAndFives }
    else if v <= 2698u16 { HandRankClass::KingsAndFours }
    else if v <= 2709u16 { HandRankClass::KingsAndTreys }
    else if v <= 2720u16 { HandRankClass::KingsAndDeuces }
    else if v <= 2731u16 { HandRankClass::QueensAndJacks }
    else if v <= 2742u16 { HandRankClass::QueensAndTens }
    else if v <= 2753u16 { HandRankClass::QueensAndNines }
    else if v <= 2764u16 { HandRankClass::QueensAndEights }
    else if v <= 2775u16 { HandRankClass::QueensAndSevens }
    else if v <= 2786u16 { HandRankClass::QueensAndSixes }
    else if v <= 2797u16 { HandRankClass::QueensAndFives }
    else if v <= 2808u16 { HandRankClass::QueensAndFours }
    else if v <= 2819u16 { HandRankClass::QueensAndTreys }
    else if v <= 2830u16 { HandRankClass::QueensAndDeuces }
    else if v <= 2841u16 { HandRankClass::JacksAndTens }
    else if v <= 2852u16 { HandRankClass::JacksAndNines }
    else if v <= 2863u16 { HandRankClass::JacksAndEights }
    else if v <= 2874u16 { HandRankClass::JacksAndSevens }
    else if v <= 2885u16 { HandRankClass::JacksAndSixes }
    else if v <= 2896u16 { HandRankClass::JacksAndFives }
    else if v <= 2907u16 { HandRankClass::JacksAndFours }
    else if v <= 2918u16 { HandRankClass::JacksAndTreys }
    else if v <= 2929u16 { HandRankClass::JacksAndDeuces }
    else if v <= 2940u16 { HandRankClass::TensAndNines }
    else if v <= 2951u16 { HandRankClass::TensAndEights }
    else if v <= 2962u16 { HandRankClass::TensAndSevens }
    else if v <= 2973u16 { HandRankClass::TensAndSixes }
    else if v <= 2984u16 { HandRankClass::TensAndFives }
    else if v <= 2995u16 { HandRankClass::TensAndFours }
    else if v <= 3006u16 { HandRankClass::TensAndTreys }
    else if v <= 3017u16 { HandRankClass::TensAndDeuces }
    else if v <= 3028u16 { HandRankClass::NinesAndEights }
    else if v <= 3039u16 { HandRankClass::NinesAndSevens }
    else if v <= 3050u16 { HandRankClass::NinesAndSixes }
    else if v <= 3061u16 { HandRankClass::NinesAndFives }
    else if v <= 3072u16 { HandRankClass::NinesAndFours }
    else if v <= 3083u16 { HandRankClass::NinesAndTreys }
    else if v <= 3094u16 { HandRankClass::NinesAndDeuces }
    else if v <= 3105u16 { HandRankClass::EightsAndSevens }
    else if v <= 3116u16 { HandRankClass::EightsAndSixes }
    else if v <= 3127u16 { HandRankClass::EightsAndFives }
    else if v <= 3138u16 { HandRankClass::EightsAndFours }
    else if v <= 3149u16 { HandRankClass::EightsAndTreys }
    else if v <= 3160u16 { HandRankClass::EightsAndDeuces }
    else if v <= 3171u16 { HandRankClass::SevensAndSixes }
    else if v <= 3182u16 { HandRankClass::SevensAndFives }
    else if v <= 3193u16 { HandRankClass::SevensAndFours }
    else if v <= 3204u16 { HandRankClass::SevensAndTreys }
    else if v <= 3215u16 { HandRankClass::SevensAndDeuces }
    else if v <= 3226u16 { HandRankClass::SixesAndFives }
    else if v <= 3237u16 { HandRankClass::SixesAndFours }
    else if v <= 3248u16 { HandRankClass::SixesAndTreys }
    else if v <= 3259u16 { HandRankClass::SixesAndDeuces }
    else if v <= 3270u16 { HandRankClass::FivesAndFours }
    else if v <= 3281u16 { HandRankClass::FivesAndTreys }
    else if v <= 3292u16 { HandRankClass::FivesAndDeuces }
    else if v <= 3303u16 { HandRankClass::FoursAndTreys }
    else if v <= 3314u16 { HandRankClass::FoursAndDeuces }
    else if v <= 3325u16 { HandRankClass::TreysAndDeuces }
    else if v <= 3545u16 { HandRankClass::PairOfAces }
    else if v <= 3765u16 { HandRankClass::PairOfKings }
    else if v <= 3985u16 { HandRankClass::PairOfQueens }
    else if v <= 4205u16 { HandRankClass::PairOfJacks }
    else if v <= 4425u16 { HandRankClass::PairOfTens }
    else if v <= 4645u16 { HandRankClass::PairOfNines }
    else if v <= 4865u16 { HandRankClass::PairOfEights }
    else if v <= 5085u16 { HandRankClass::PairOfSevens }
    else if v <= 5305u16 { HandRankClass::PairOfSixes }
    else if v <= 5525u16 { HandRankClass::PairOfFives }
    else if v <= 5745u16 { HandRankClass::PairOfFours }
    else if v <= 5965u16 { HandRankClass::PairOfTreys }
    else if v <= 6185u16 { HandRankClass::PairOfDeuces }
    else if v <= 6678u16 { HandRankClass::AceHigh }
    else if v <= 7007u16 { HandRankClass::KingHigh }
    else if v <= 7216u16 { HandRankClass::QueenHigh }
    else if v <= 7341u16 { HandRankClass::JackHigh }
    else if v <= 7410u16 { HandRankClass::TenHigh }
    else if v <= 7444u16 { HandRankClass::NineHigh }
    else if v <= 7458u16 { HandRankClass::EightHigh }
    else if v <= 7462u16 { HandRankClass::SevenHigh }
    else { HandRankClass::Invalid }
}

/// The triple a `HandRankValue` expands to: the value itself and the two
/// classifications derived from it alone.
pub open spec fn spec_hand_rank_from(v: HandRankValue) -> HandRank {
    HandRank { value: v, name: spec_determine_name(v), class: spec_determine_class(v) }
}

/// How two hand ranks compare: invalid ranks are all equal and weaker than
/// everything else; among valid ranks a lower value is the stronger hand.
pub open spec fn spec_hand_rank_cmp(a: HandRank, b: HandRank) -> Ordering {
    if a.name == HandRankName::Invalid && b.name == HandRankName::Invalid {
        Ordering::Equal
    } else if a.name == HandRankName::Invalid {
        Ordering::Less
    } else if b.name == HandRankName::Invalid {
        Ordering::Greater
    } else if a.value < b.value {
        Ordering::Greater
    } else if a.value > b.value {
        Ordering::Less
    } else {
        Ordering::Equal
    }
}

/// The value of a specific five-card poker hand together with its name and
/// class. The lower the value, the better the hand. A rank built by
/// `HandRank::from` always carries the name and class its value demands.
#[derive(Clone, Copy, Debug, Eq, Hash, PartialEq, Structural)]
pub struct HandRank {
    pub value: HandRankValue,
    pub name: HandRankName,
    pub class: HandRankClass,
}

impl HandRank {
    /// Determines which of the nine traditional hand names a rank value
    /// stands for.
    ///
    /// The 7462 possible hand values split into:
    ///
    ///   10 straight flushes,
    ///  156 four of a kinds,
    ///  156 full houses,
    /// 1277 flushes,
    ///   10 straights,
    ///  858 three of a kinds,
    ///  858 two pairs,
    /// 2860 pairs, and
    /// 1277 high cards.
    pub fn determine_name(hrv: &HandRankValue) -> (r: HandRankName)
        ensures
            r == spec_determine_name(*hrv),
    {
        let v = *hrv;
        if v == 0 { HandRankName::Invalid }
        else if v <= 10 { HandRankName::StraightFlush }
        else if v <= 166 { HandRankName::FourOfAKind }
        else if v <= 322 { HandRankName::FullHouse }
        else if v <= 1599 { HandRankName::Flush }
        else if v <= 1609 { HandRankName::Straight }
        else if v <= 2467 { HandRankName::ThreeOfAKind }
        else if v <= 3325 { HandRankName::TwoPair }
        else if v <= 6185 { HandRankName::Pair }
        else if v <= 7462 { HandRankName::HighCard }
        else { HandRankName::Invalid }
    }

    /// Determines the fine class of a rank value by walking the same
    /// boundaries class by class.
    pub fn determine_class(hrv: &HandRankValue) -> (r: HandRankClass)
        ensures
            r == spec_determine_class(*hrv),
    {
        let v = *hrv;
        if v == 0 { HandRankClass::Invalid }
        else if v <= 1 { HandRankClass::RoyalFlush }
        else if v <= 2 { HandRankClass::KingHighStraightFlush }
        else if v <= 3 { HandRankClass::QueenHighStraightFlush }
        else if v <= 4 { HandRankClass::JackHighStraightFlush }
        else if v <= 5 { HandRankClass::TenHighStraightFlush }
        else if v <= 6 { HandRankClass::NineHighStraightFlush }
        else if v <= 7 { HandRankClass::EightHighStraightFlush }
        else if v <= 8 { HandRankClass::SevenHighStraightFlush }
        else if v <= 9 { HandRankClass::SixHighStraightFlush }
        else if v <= 10 { HandRankClass::FiveHighStraightFlush }
        else if v <= 22 { HandRankClass::FourAces }
        else if v <= 34 { HandRankClass::FourKings }
        else if v <= 46 { HandRankClass::FourQueens }
        else if v <= 58 { HandRankClass::FourJacks }
        else if v <= 70 { HandRankClass::FourTens }
        else if v <= 82 { HandRankClass::FourNines }
        else if v <= 94 { HandRankClass::FourEights }
        else if v <= 106 { HandRankClass::FourSevens }
        else if v <= 118 { HandRankClass::FourSixes }
        else if v <= 130 { HandRankClass::FourFives }
        else if v <= 142 { HandRankClass::FourFours }
        else if v <= 154 { HandRankClass::FourTreys }
        else if v <= 166 { HandRankClass::FourDeuces }
        else if v <= 167 { HandRankClass::AcesOverKings }
        else if v <= 168 { HandRankClass::AcesOverQueens }
        else if v <= 169 { HandRankClass::AcesOverJacks }
        else if v <= 170 { HandRankClass::AcesOverTens }
        else if v <= 171 { HandRankClass::AcesOverNines }
        else if v <= 172 { HandRankClass::AcesOverEights }
        else if v <= 173 { HandRankClass::AcesOverSevens }
        else if v <= 174 { HandRankClass::AcesOverSixes }
        else if v <= 175 { HandRankClass::AcesOverFives }
        else if v <= 176 { HandRankClass::AcesOverFours }
        else if v <= 177 { HandRankClass::AcesOverTreys }
        else if v <= 178 { HandRankClass::AcesOverDeuces }
        else if v <= 179 { HandRankClass::KingsOverAces }
        else if v <= 180 { HandRankClass::KingsOverQueens }
        else if v <= 181 { HandRankClass::KingsOverJacks }
        else if v <= 182 { HandRankClass::KingsOverTens }
        else if v <= 183 { HandRankClass::KingsOverNines }
        else if v <= 184 { HandRankClass::KingsOverEights }
        else if v <= 185 { HandRankClass::KingsOverSevens }
        else if v <= 186 { HandRankClass::KingsOverSixes }
        else if v <= 187 { HandRankClass::KingsOverFives }
        else if v <= 188 { HandRankClass::KingsOverFours }
        else if v <= 189 { HandRankClass::KingsOverTreys }
        else if v <= 190 { HandRankClass::KingsOverDeuces }
        else if v <= 191 { HandRankClass::QueensOverAces }
        else if v <= 192 { HandRankClass::QueensOverKings }
        else if v <= 193 { HandRankClass::QueensOverJacks }
        else if v <= 194 { HandRankClass::QueensOverTens }
        else if v <= 195 { HandRankClass::QueensOverNines }
        else if v <= 196 { HandRankClass::QueensOverEights }
        else if v <= 197 { HandRankClass::QueensOverSevens }
        else if v <= 198 { HandRankClass::QueensOverSixes }
        else if v <= 199 { HandRankClass::QueensOverFives }
        else if v <= 200 { HandRankClass::QueensOverFours }
        else if v <= 201 { HandRankClass::QueensOverTreys }
        else if v <= 202 { HandRankClass::QueensOverDeuces }
        else if v <= 203 { HandRankClass::JacksOverAces }
        else if v <= 204 { HandRankClass::JacksOverKings }
        else if v <= 205 { HandRankClass::JacksOverQueens }
        else if v <= 206 { HandRankClass::JacksOverTens }
        else if v <= 207 { HandRankClass::JacksOverNines }
        else if v <= 208 { HandRankClass::JacksOverEights }
        else if v <= 209 { HandRankClass::JacksOverSevens }
        else if v <= 210 { HandRankClass::JacksOverSixes }
        else if v <= 211 { HandRankClass::JacksOverFives }
        else if v <= 212 { HandRankClass::JacksOverFours }
        else if v <= 213 { HandRankClass::JacksOverTreys }
        else if v <= 214 { HandRankClass::JacksOverDeuces }
        else if v <= 215 { HandRankClass::TensOverAces }
        else if v <= 216 { HandRankClass::TensOverKings }
        else if v <= 217 { HandRankClass::TensOverQueens }
        else if v <= 218 { HandRankClass::TensOverJacks }
        else if v <= 219 { HandRankClass::TensOverNines }
        else if v <= 220 { HandRankClass::TensOverEights }
        else if v <= 221 { HandRankClass::TensOverSevens }
        else if v <= 222 { HandRankClass::TensOverSixes }
        else if v <= 223 { HandRankClass::TensOverFives }
        else if v <= 224 { HandRankClass::TensOverFours }
        else if v <= 225 { HandRankClass::TensOverTreys }
        else if v <= 226 { HandRankClass::TensOverDeuces }
        else if v <= 227 { HandRankClass::NinesOverAces }
        else if v <= 228 { HandRankClass::NinesOverKings }
        else if v <= 229 { HandRankClass::NinesOverQueens }
        else if v <= 230 { HandRankClass::NinesOverJacks }
        else if v <= 231 { HandRankClass::NinesOverTens }
        else if v <= 232 { HandRankClass::NinesOverEights }
        else if v <= 233 { HandRankClass::NinesOverSevens }
        else if v <= 234 { HandRankClass::NinesOverSixes }
        else if v <= 235 { HandRankClass::NinesOverFives }
        else if v <= 236 { HandRankClass::NinesOverFours }
        else if v <= 237 { HandRankClass::NinesOverTreys }
        else if v <= 238 { HandRankClass::NinesOverDeuces }
        else if v <= 239 { HandRankClass::EightsOverAces }
        else if v <= 240 { HandRankClass::EightsOverKings }
        else if v <= 241 { HandRankClass::EightsOverQueens }
        else if v <= 242 { HandRankClass::EightsOverJacks }
        else if v <= 243 { HandRankClass::EightsOverTens }
        else if v <= 244 { HandRankClass::EightsOverNines }
        else if v <= 245 { HandRankClass::EightsOverSevens }
        else if v <= 246 { HandRankClass::EightsOverSixes }
        else if v <= 247 { HandRankClass::EightsOverFives }
        else if v <= 248 { HandRankClass::EightsOverFours }
        else if v <= 249 { HandRankClass::EightsOverTreys }
        else if v <= 250 { HandRankClass::EightsOverDeuces }
        else if v <= 251 { HandRankClass::SevensOverAces }
        else if v <= 252 { HandRankClass::SevensOverKings }
        else if v <= 253 { HandRankClass::SevensOverQueens }
        else if v <= 254 { HandRankClass::SevensOverJacks }
        else if v <= 255 { HandRankClass::SevensOverTens }
        else if v <= 256 { HandRankClass::SevensOverNines }
        else if v <= 257 { HandRankClass::SevensOverEights }
        else if v <= 258 { HandRankClass::SevensOverSixes }
        else if v <= 259 { HandRankClass::SevensOverFives }
        else if v <= 260 { HandRankClass::SevensOverFours }
        else if v <= 261 { HandRankClass::SevensOverTreys }
        else if v <= 262 { HandRankClass::SevensOverDeuces }
        else if v <= 263 { HandRankClass::SixesOverAces }
        else if v <= 264 { HandRankClass::SixesOverKings }
        else if v <= 265 { HandRankClass::SixesOverQueens }
        else if v <= 266 { HandRankClass::SixesOverJacks }
        else if v <= 267 { HandRankClass::SixesOverTens }
        else if v <= 268 { HandRankClass::SixesOverNines }
        else if v <= 269 { HandRankClass::SixesOverEights }
        else if v <= 270 { HandRankClass::SixesOverSevens }
        else if v <= 271 { HandRankClass::SixesOverFives }
        else if v <= 272 { HandRankClass::SixesOverFours }
        else if v <= 273 { HandRankClass::SixesOverTreys }
        else if v <= 274 { HandRankClass::SixesOverDeuces }
        else if v <= 275 { HandRankClass::FivesOverAces }
        else if v <= 276 { HandRankClass::FivesOverKings }
        else if v <= 277 { HandRankClass::FivesOverQueens }
        else if v <= 278 { HandRankClass::FivesOverJacks }
        else if v <= 279 { HandRankClass::FivesOverTens }
        else if v <= 280 { HandRankClass::FivesOverNines }
        else if v <= 281 { HandRankClass::FivesOverEights }
        else if v <= 282 { HandRankClass::FivesOverSevens }
        else if v <= 283 { HandRankClass::FivesOverSixes }
        else if v <= 284 { HandRankClass::FivesOverFours }
        else if v <= 285 { HandRankClass::FivesOverTreys }
        else if v <= 286 { HandRankClass::FivesOverDeuces }
        else if v <= 287 { HandRankClass::FoursOverAces }
        else if v <= 288 { HandRankClass::FoursOverKings }
        else if v <= 289 { HandRankClass::FoursOverQueens }
        else if v <= 290 { HandRankClass::FoursOverJacks }
        else if v <= 291 { HandRankClass::FoursOverTens }
        else if v <= 292 { HandRankClass::FoursOverNines }
        else if v <= 293 { HandRankClass::FoursOverEights }
        else if v <= 294 { HandRankClass::FoursOverSevens }
        else if v <= 295 { HandRankClass::FoursOverSixes }
        else if v <= 296 { HandRankClass::FoursOverFives }
        else if v <= 297 { HandRankClass::FoursOverTreys }
        else if v <= 298 { HandRankClass::FoursOverDeuces }
        else if v <= 299 { HandRankClass::TreysOverAces }
        else if v <= 300 { HandRankClass::TreysOverKings }
        else if v <= 301 { HandRankClass::TreysOverQueens }
        else if v <= 302 { HandRankClass::TreysOverJacks }
        else if v <= 303 { HandRankClass::TreysOverTens }
        else if v <= 304 { HandRankClass::TreysOverNines }
        else if v <= 305 { HandRankClass::TreysOverEights }
        else if v <= 306 { HandRankClass::TreysOverSevens }
        else if v <= 307 { HandRankClass::TreysOverSixes }
        else if v <= 308 { HandRankClass::TreysOverFives }
        else if v <= 309 { HandRankClass::TreysOverFours }
        else if v <= 310 { HandRankClass::TreysOverDeuces }
        else if v <= 311 { HandRankClass::DeucesOverAces }
        else if v <= 312 { HandRankClass::DeucesOverKings }
        else if v <= 313 { HandRankClass::DeucesOverQueens }
        else if v <= 314 { HandRankClass::DeucesOverJacks }
        else if v <= 315 { HandRankClass::DeucesOverTens }
        else if v <= 316 { HandRankClass::DeucesOverNines }
        else if v <= 317 { HandRankClass::DeucesOverEights }
        else if v <= 318 { HandRankClass::DeucesOverSevens }
        else if v <= 319 { HandRankClass::DeucesOverSixes }
        else if v <= 320 { HandRankClass::DeucesOverFives }
        else if v <= 321 { HandRankClass::DeucesOverFours }
        else if v <= 322 { HandRankClass::DeucesOverTreys }
        else if v <= 815 { HandRankClass::AceHighFlush }
        else if v <= 1144 { HandRankClass::KingHighFlush }
        else if v <= 1353 { HandRankClass::QueenHighFlush }
        else if v <= 1478 { HandRankClass::JackHighFlush }
        else if v <= 1547 { HandRankClass::TenHighFlush }
        else if v <= 1581 { HandRankClass::NineHighFlush }
        else if v <= 1595 { HandRankClass::EightHighFlush }
        else if v <= 1599 { HandRankClass::SevenHighFlush }
        else if v <= 1600 { HandRankClass::AceHighStraight }
        else if v <= 1601 { HandRankClass::KingHighStraight }
        else if v <= 1602 { HandRankClass::QueenHighStraight }
        else if v <= 1603 { HandRankClass::JackHighStraight }
        else if v <= 1604 { HandRankClass::TenHighStraight }
        else if v <= 1605 { HandRankClass::NineHighStraight }
        else if v <= 1606 { HandRankClass::EightHighStraight }
        else if v <= 1607 { HandRankClass::SevenHighStraight }
        else if v <= 1608 { HandRankClass::SixHighStraight }
        else if v <= 1609 { HandRankClass::FiveHighStraight }
        else if v <= 1675 { HandRankClass::ThreeAces }
        else if v <= 1741 { HandRankClass::ThreeKings }
        else if v <= 1807 { HandRankClass::ThreeQueens }
        else if v <= 1873 { HandRankClass::ThreeJacks }
        else if v <= 1939 { HandRankClass::ThreeTens }
        else if v <= 2005 { HandRankClass::ThreeNines }
        else if v <= 2071 { HandRankClass::ThreeEights }
        else if v <= 2137 { HandRankClass::ThreeSevens }
        else if v <= 2203 { HandRankClass::ThreeSixes }
        else if v <= 2269 { HandRankClass::ThreeFives }
        else if v <= 2335 { HandRankClass::ThreeFours }
        else if v <= 2401 { HandRankClass::ThreeTreys }
        else if v <= 2467 { HandRankClass::ThreeDeuces }
        else if v <= 2478 { HandRankClass::AcesAndKings }
        else if v <= 2489 { HandRankClass::AcesAndQueens }
        else if v <= 2500 { HandRankClass::AcesAndJacks }
        else if v <= 2511 { HandRankClass::AcesAndTens }
        else if v <= 2522 { HandRankClass::AcesAndNines }
        else if v <= 2533 { HandRankClass::AcesAndEights }
        else if v <= 2544 { HandRankClass::AcesAndSevens }
        else if v <= 2555 { HandRankClass::AcesAndSixes }
        else if v <= 2566 { HandRankClass::AcesAndFives }
        else if v <= 2577 { HandRankClass::AcesAndFours }
        else if v <= 2588 { HandRankClass::AcesAndTreys }
        else if v <= 2599 { HandRankClass::AcesAndDeuces }
        else if v <= 2610 { HandRankClass::KingsAndQueens }
        else if v <= 2621 { HandRankClass::KingsAndJacks }
        else if v <= 2632 { HandRankClass::KingsAndTens }
        else if v <= 2643 { HandRankClass::KingsAndNines }
        else if v <= 2654 { HandRankClass::KingsAndEights }
        else if v <= 2665 { HandRankClass::KingsAndSevens }
        else if v <= 2676 { HandRankClass::KingsAndSixes }
        else if v <= 2687 { HandRankClass::KingsAndFives }
        else if v <= 2698 { HandRankClass::KingsAndFours }
        else if v <= 2709 { HandRankClass::KingsAndTreys }
        else if v <= 2720 { HandRankClass::KingsAndDeuces }
        else if v <= 2731 { HandRankClass::QueensAndJacks }
        else if v <= 2742 { HandRankClass::QueensAndTens }
        else if v <= 2753 { HandRankClass::QueensAndNines }
        else if v <= 2764 { HandRankClass::QueensAndEights }
        else if v <= 2775 { HandRankClass::QueensAndSevens }
        else if v <= 2786 { HandRankClass::QueensAndSixes }
        else if v <= 2797 { HandRankClass::QueensAndFives }
        else if v <= 2808 { HandRankClass::QueensAndFours }
        else if v <= 2819 { HandRankClass::QueensAndTreys }
        else if v <= 2830 { HandRankClass::QueensAndDeuces }
        else if v <= 2841 { HandRankClass::JacksAndTens }
        else if v <= 2852 { HandRankClass::JacksAndNines }
        else if v <= 2863 { HandRankClass::JacksAndEights }
        else if v <= 2874 { HandRankClass::JacksAndSevens }
        else if v <= 2885 { HandRankClass::JacksAndSixes }
        else if v <= 2896 { HandRankClass::JacksAndFives }
        else if v <= 2907 { HandRankClass::JacksAndFours }
        else if v <= 2918 { HandRankClass::JacksAndTreys }
        else if v <= 2929 { HandRankClass::JacksAndDeuces }
        else if v <= 2940 { HandRankClass::TensAndNines }
        else if v <= 2951 { HandRankClass::TensAndEights }
        else if v <= 2962 { HandRankClass::TensAndSevens }
        else if v <= 2973 { HandRankClass::TensAndSixes }
        else if v <= 2984 { HandRankClass::TensAndFives }
        else if v <= 2995 { HandRankClass::TensAndFours }
        else if v <= 3006 { HandRankClass::TensAndTreys }
        else if v <= 3017 { HandRankClass::TensAndDeuces }
        else if v <= 3028 { HandRankClass::NinesAndEights }
        else if v <= 3039 { HandRankClass::NinesAndSevens }
        else if v <= 3050 { HandRankClass::NinesAndSixes }
        else if v <= 3061 { HandRankClass::NinesAndFives }
        else if v <= 3072 { HandRankClass::NinesAndFours }
        else if v <= 3083 { HandRankClass::NinesAndTreys }
        else if v <= 3094 { HandRankClass::NinesAndDeuces }
        else if v <= 3105 { HandRankClass::EightsAndSevens }
        else if v <= 3116 { HandRankClass::EightsAndSixes }
        else if v <= 3127 { HandRankClass::EightsAndFives }
        else if v <= 3138 { HandRankClass::EightsAndFours }
        else if v <= 3149 { HandRankClass::EightsAndTreys }
        else if v <= 3160 { HandRankClass::EightsAndDeuces }
        else if v <= 3171 { HandRankClass::SevensAndSixes }
        else if v <= 3182 { HandRankClass::SevensAndFives }
        else if v <= 3193 { HandRankClass::SevensAndFours }
        else if v <= 3204 { HandRankClass::SevensAndTreys }
        else if v <= 3215 { HandRankClass::SevensAndDeuces }
        else if v <= 3226 { HandRankClass::SixesAndFives }
        else if v <= 3237 { HandRankClass::SixesAndFours }
        else if v <= 3248 { HandRankClass::SixesAndTreys }
        else if v <= 3259 { HandRankClass::SixesAndDeuces }
        else if v <= 3270 { HandRankClass::FivesAndFours }
        else if v <= 3281 { HandRankClass::FivesAndTreys }
        else if v <= 3292 { HandRankClass::FivesAndDeuces }
        else if v <= 3303 { HandRankClass::FoursAndTreys }
        else if v <= 3314 { HandRankClass::FoursAndDeuces }
        else if v <= 3325 { HandRankClass::TreysAndDeuces }
        else if v <= 3545 { HandRankClass::PairOfAces }
        else if v <= 3765 { HandRankClass::PairOfKings }
        else if v <= 3985 { HandRankClass::PairOfQueens }
        else if v <= 4205 { HandRankClass::PairOfJacks }
        else if v <= 4425 { HandRankClass::PairOfTens }
        else if v <= 4645 { HandRankClass::PairOfNines }
        else if v <= 4865 { HandRankClass::PairOfEights }
        else if v <= 5085 { HandRankClass::PairOfSevens }
        else if v <= 5305 { HandRankClass::PairOfSixes }
        else if v <= 5525 { HandRankClass::PairOfFives }
        else if v <= 5745 { HandRankClass::PairOfFours }
        else if v <= 5965 { HandRankClass::PairOfTreys }
        else if v <= 6185 { HandRankClass::PairOfDeuces }
        else if v <= 6678 { HandRankClass::AceHigh }
        else if v <= 7007 { HandRankClass::KingHigh }
        else if v <= 7216 { HandRankClass::QueenHigh }
        else if v <= 7341 { HandRankClass::JackHigh }
        else if v <= 7410 { HandRankClass::TenHigh }
        else if v <= 7444 { HandRankClass::NineHigh }
        else if v <= 7458 { HandRankClass::EightHigh }
        else if v <= 7462 { HandRankClass::SevenHigh }
        else { HandRankClass::Invalid }
    }

    /// A rank is aligned when its name and class are exactly the ones its
    /// value reconstructs to.
    pub fn is_a_valid_hand_rank(&self) -> (r: bool)
        ensures
            r == (*self == spec_hand_rank_from(self.value)),
    {
        let rebuilt = HandRank::from(self.value);
        self.value == rebuilt.value && self.name == rebuilt.name && self.class == rebuilt.class
    }

    pub fn is_invalid(&self) -> (r: bool)
        ensures
            r == (self.name == HandRankName::Invalid),
    {
        self.name == HandRankName::Invalid
    }

    /// Compares two ranks: every invalid rank is equal to any other invalid
    /// rank and below any valid one; otherwise the lower value wins.
    pub fn cmp(&self, other: &HandRank) -> (r: Ordering)
        ensures
            r == spec_hand_rank_cmp(*self, *other),
    {
        if self.is_invalid() && other.is_invalid() {
            Ordering::Equal
        } else if self.is_invalid() {
            Ordering::Less
        } else if other.is_invalid() {
            Ordering::Greater
        } else if self.value < other.value {
            Ordering::Greater
        } else if self.value > other.value {
            Ordering::Less
        } else {
            Ordering::Equal
        }
    }
}

impl Default for HandRank {
    /// The default rank is the invalid rank built from value 0.
    fn default() -> (r: HandRank)
        ensures
            r == spec_hand_rank_from(0),
    {
        HandRank::from(0)
    }
}

impl From<HandRankValue> for HandRank {
    /// Expands a value into the full rank triple; name and class are pure
    /// functions of the value.
    fn from(value: HandRankValue) -> (r: Self) {
        HandRank {
            value,
            name: HandRank::determine_name(&value),
            class: HandRank::determine_class(&value),
        }
    }
}

impl vstd::std_specs::convert::FromSpecImpl<HandRankValue> for HandRank {
    open spec fn obeys_from_spec() -> bool {
        true
    }

    open spec fn from_spec(value: HandRankValue) -> HandRank {
        spec_hand_rank_from(value)
    }
}

impl PartialOrd for HandRank {
    /// Ranks are totally ordered by `cmp`; the lower the value the greater
    /// the rank, and invalid ranks sit at the bottom.
    fn partial_cmp(&self, other: &Self) -> (r: Option<Ordering>) {
        Some(self.cmp(other))
    }
}

impl vstd::std_specs::cmp::PartialOrdSpecImpl for HandRank {
    open spec fn obeys_partial_cmp_spec() -> bool {
        true
    }

    open spec fn partial_cmp_spec(&self, other: &Self) -> Option<Ordering> {
        Some(spec_hand_rank_cmp(*self, *other))
    }
}

/// Law: rebuilding a `HandRank` from any value in `[0, 7462]` keeps that
/// value, and re-running classification on it reproduces the same name and
/// class, so a rebuilt rank is always aligned.
pub proof fn lemma_hand_rank_round_trip(v: HandRankValue)
    ensures
        spec_hand_rank_from(v).value == v,
        spec_hand_rank_from(spec_hand_rank_from(v).value) == spec_hand_rank_from(v),
        spec_hand_rank_from(v) == spec_hand_rank_from(spec_hand_rank_from(v).value),
{
}

} // verus!
