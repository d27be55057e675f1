use vstd::prelude::*;
use vstd::string::StrSliceExecFns;

use crate::{spec_create, spec_rank_from_char, spec_suit_from_char, CKCNumber, CardRank,
    CardSuit};

verus! {

/// The characters that separate card indexes inside a hand string.
pub open spec fn is_ws(c: char) -> bool {
    c == ' ' || c == '\t' || c == '\n' || c == '\r'
}

/// The first position at or after `from` holding a non-separator
/// character, or the length of the string when only separators remain.
pub open spec fn first_non_ws(s: Seq<char>, from: int) -> int
    decreases s.len() - from when 0 <= from <= s.len()
{
    if from >= s.len() {
        s.len() as int
    } else if !is_ws(s[from]) {
        from
    } else {
        first_non_ws(s, from + 1)
    }
}

/// The first position at or after `from` holding a separator character,
/// or the length of the string when none follows.
pub open spec fn first_ws(s: Seq<char>, from: int) -> int
    decreases s.len() - from when 0 <= from <= s.len()
{
    if from >= s.len() {
        s.len() as int
    } else if is_ws(s[from]) {
        from
    } else {
        first_ws(s, from + 1)
    }
}

/// What parsing a single card index returns: the first character names the
/// rank, the second the suit; anything shorter than two characters is blank.
pub open spec fn spec_card_from_index(s: Seq<char>) -> CKCNumber {
    if s.len() < 2 {
        0
    } else {
        spec_create(spec_rank_from_char(s[0]), spec_suit_from_char(s[1]))
    }
}

/// The rank and suit named by the first two characters of an index string.
pub fn get_rank_and_suit(index: &str) -> (r: (CardRank, CardSuit))
    ensures
        index@.len() < 2 ==> r == (CardRank::BLANK, CardSuit::BLANK),
        index@.len() >= 2 ==> r == (
            spec_rank_from_char(index@[0]),
            spec_suit_from_char(index@[1]),
        ),
{
    if index.unicode_len() < 2 {
        (CardRank::BLANK, CardSuit::BLANK)
    } else {
        (CardRank::from_char(index.get_char(0)), CardSuit::from_char(index.get_char(1)))
    }
}

/// Walks past separator characters, returning the position of the next
/// card index or the end of the string.
fn skip_ws(s: &str, from: usize, len: usize) -> (r: usize)
    requires
        from <= len,
        len == s@.len(),
    ensures
        from <= r <= len,
        r == first_non_ws(s@, from as int),
{
    let mut i: usize = from;
    loop
        invariant
            from <= i <= len,
            len == s@.len(),
            first_non_ws(s@, from as int) == first_non_ws(s@, i as int),
        decreases len - i,
    {
        if i >= len {
            return i;
        }
        let c = s.get_char(i);
        if c == ' ' || c == '\t' || c == '\n' || c == '\r' {
            i = i + 1;
        } else {
            return i;
        }
    }
}

/// Finds the end of the card index that starts at `from`.
fn find_ws(s: &str, from: usize, len: usize) -> (r: usize)
    requires
        from <= len,
        len == s@.len(),
    ensures
        from <= r <= len,
        r == first_ws(s@, from as int),
{
    let mut i: usize = from;
    loop
        invariant
            from <= i <= len,
            len == s@.len(),
            first_ws(s@, from as int) == first_ws(s@, i as int),
        decreases len - i,
    {
        if i >= len {
            return i;
        }
        let c = s.get_char(i);
        if c == ' ' || c == '\t' || c == '\n' || c == '\r' {
            return i;
        } else {
            i = i + 1;
        }
    }
}

/// The packed card spelled by the token at positions `[a, b)` of `s`.
pub open spec fn spec_card_at(s: Seq<char>, a: int, b: int) -> CKCNumber {
    if b - a >= 2 {
        spec_create(spec_rank_from_char(s[a]), spec_suit_from_char(s[a + 1]))
    } else {
        0
    }
}

/// Reads the next whitespace-separated card index of `s` starting at
/// `from`; returns the parsed card and the position after the token, or
/// `None` when only separators remain.
pub(crate) fn next_card(s: &str, from: usize, len: usize) -> (r: Option<(CKCNumber, usize)>)
    requires
        from <= len,
        len == s@.len(),
    ensures
        ({
            let a = first_non_ws(s@, from as int);
            let b = first_ws(s@, a);
            if a == len {
                r is None
            } else {
                r matches Some(p) && p.0 == spec_card_at(s@, a, b) && p.1 == b && from <= p.1
                    <= len
            }
        }),
{
    let a = skip_ws(s, from, len);
    if a == len {
        return None;
    }
    let b = find_ws(s, a, len);
    proof {
        lemma_first_ws_past(s@, a as int);
    }
    if b - a >= 2 {
        let rank = CardRank::from_char(s.get_char(a));
        let suit = CardSuit::from_char(s.get_char(a + 1));
        Some((crate::create_card(rank, suit), b))
    } else {
        Some((0, b))
    }
}

/// A token that starts inside the string ends strictly past where the
/// search for it began.
pub(crate) proof fn lemma_token_advances(s: Seq<char>, from: int)
    requires
        0 <= from <= s.len(),
        first_non_ws(s, from) != s.len(),
    ensures
        from <= first_non_ws(s, from) < first_ws(s, first_non_ws(s, from)) <= s.len(),
    decreases s.len() - from,
{
    let a = first_non_ws(s, from);
    lemma_first_non_ws_past(s, from);
    lemma_first_ws_past(s, a + 1);
}

proof fn lemma_first_non_ws_past(s: Seq<char>, from: int)
    requires
        0 <= from <= s.len(),
    ensures
        from <= first_non_ws(s, from) <= s.len(),
        first_non_ws(s, from) < s.len() ==> !is_ws(s[first_non_ws(s, from)]),
    decreases s.len() - from,
{
    if from < s.len() && is_ws(s[from]) {
        lemma_first_non_ws_past(s, from + 1);
    }
}

proof fn lemma_first_ws_past(s: Seq<char>, from: int)
    requires
        0 <= from <= s.len(),
    ensures
        from <= first_ws(s, from) <= s.len(),
    decreases s.len() - from,
{
    if from < s.len() && !is_ws(s[from]) {
        lemma_first_ws_past(s, from + 1);
    }
}

/// The sequence of cards spelled by the first `n` tokens of `s` starting
/// at `from`, or `None` when fewer than `n` tokens remain.
pub open spec fn spec_cards_from(s: Seq<char>, from: int, n: nat) -> Option<Seq<CKCNumber>>
    decreases n,
{
    if n == 0 {
        Some(Seq::empty())
    } else {
        let a = first_non_ws(s, from);
        let b = first_ws(s, a);
        if a == s.len() {
            None
        } else {
            match spec_cards_from(s, b, (n - 1) as nat) {
                Some(rest) => Some(seq![spec_card_at(s, a, b)] + rest),
                None => None,
            }
        }
    }
}

/// Parses five whitespace-separated card indexes into packed cards;
/// unrecognized indexes come back as blank cards, and fewer than five
/// indexes yield `None`.
pub fn five_from_index(index: &str) -> (r: Option<[CKCNumber; 5]>)
    ensures
        ({
            let parsed = spec_cards_from(index@, 0, 5);
            match r {
                Some(cards) => parsed matches Some(s) && cards@ =~= s,
                None => parsed is None,
            }
        }),
{
    let len = index.unicode_len();
    proof {
        reveal_with_fuel(spec_cards_from, 6);
    }
    let (c1, p1) = match next_card(index, 0, len) {
        None => { return None; },
        Some(p) => p,
    };
    let (c2, p2) = match next_card(index, p1, len) {
        None => { return None; },
        Some(p) => p,
    };
    let (c3, p3) = match next_card(index, p2, len) {
        None => { return None; },
        Some(p) => p,
    };
    let (c4, p4) = match next_card(index, p3, len) {
        None => { return None; },
        Some(p) => p,
    };
    let (c5, _p5) = match next_card(index, p4, len) {
        None => { return None; },
        Some(p) => p,
    };
    Some([c1, c2, c3, c4, c5])
}


/// Parses `n` whitespace-separated card indexes into packed cards, or
/// `None` when fewer than `n` indexes are present.
pub fn cards_from_index(index: &str, n: usize) -> (r: Option<Vec<CKCNumber>>)
    ensures
        ({
            let parsed = spec_cards_from(index@, 0, n as nat);
            match r {
                Some(cards) => parsed matches Some(s) && cards@ =~= s && cards@.len() == n,
                None => parsed is None,
            }
        }),
{
    let len = index.unicode_len();
    let mut out: Vec<CKCNumber> = Vec::new();
    let mut pos: usize = 0;
    let mut k: usize = 0;
    while k < n
        invariant
            k <= n,
            out@.len() == k,
            pos <= len,
            len == index@.len(),
            ({
                let rest_n = (n - k) as nat;
                match spec_cards_from(index@, pos as int, rest_n) {
                    Some(rest) => spec_cards_from(index@, 0, n as nat) == Some(out@ + rest),
                    None => spec_cards_from(index@, 0, n as nat) is None,
                }
            }),
        decreases n - k,
    {
        match next_card(index, pos, len) {
            None => {
                proof {
                    assert(spec_cards_from(index@, pos as int, (n - k) as nat) is None);
                }
                return None;
            },
            Some((c, p)) => {
                proof {
                    let rest_n = (n - k) as nat;
                    let a = first_non_ws(index@, pos as int);
                    let b = first_ws(index@, a);
                    assert(spec_cards_from(index@, pos as int, rest_n) matches Some(whole)
                        ==> whole =~= seq![spec_card_at(index@, a, b)] + (spec_cards_from(
                        index@,
                        b,
                        (rest_n - 1) as nat,
                    )->Some_0));
                }
                let ghost old_out = out@;
                out.push(c);
                proof {
                    let rest_n = (n - k) as nat;
                    let a = first_non_ws(index@, pos as int);
                    let b = first_ws(index@, a);
                    match spec_cards_from(index@, b, (rest_n - 1) as nat) {
                        Some(rest2) => {
                            assert(old_out + (seq![c] + rest2) =~= out@ + rest2);
                        },
                        None => {},
                    }
                }
                pos = p;
                k = k + 1;
            },
        }
    }
    proof {
        assert(spec_cards_from(index@, pos as int, 0) == Some(Seq::<CKCNumber>::empty()));
        assert(out@ + Seq::<CKCNumber>::empty() =~= out@);
    }
    Some(out)
}

} // verus!
