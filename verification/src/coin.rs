//! Coins: an amount of one denomination, and the text that writes one.

use crate::text::{
    all_digits, chars_of, decimal, drop_spaces, is_digit, is_space, leading_digits, lemma_leading_digits,
    lemma_leading_spaces, read_decimal, skip_digits, skip_spaces, trailing_spaces, trim,
};
use vstd::prelude::*;
use vstd::string::StrSliceExecFns;

verus! {

/// An amount of tokens of one denomination.
#[derive(Clone, Debug, PartialEq, Eq)]
pub struct Coin {
    pub amount: u128,
    pub denom: String,
}

/// What a [`Coin`] stands for.
pub struct CoinView {
    pub amount: nat,
    pub denom: Seq<char>,
}

impl View for Coin {
    type V = CoinView;

    open spec fn view(&self) -> CoinView {
        CoinView { amount: self.amount as nat, denom: self.denom@ }
    }
}

/// What each coin of `coins` stands for, in order.
pub open spec fn coins_view(coins: Seq<Coin>) -> Seq<CoinView> {
    coins.map_values(|c: Coin| c@)
}

pub open spec fn is_letter(c: char) -> bool {
    'a' <= c <= 'z' || 'A' <= c <= 'Z'
}

/// Whether `c` may stand in a denomination.
pub open spec fn is_denom_char(c: char) -> bool {
    is_letter(c) || is_digit(c) || c == '/' || c == '.' || c == '_' || c == '-'
}

/// Whether `s` names a denomination: a letter, then letters, digits and
/// the marks `/`, `.`, `_`, `-`.
pub open spec fn is_denom(s: Seq<char>) -> bool {
    &&& s.len() > 0
    &&& is_letter(s[0])
    &&& forall|i: int| 0 <= i < s.len() ==> is_denom_char(#[trigger] s[i])
}

/// The coin that `text` writes: between blanks, one or more decimal digits
/// whose number a `u128` holds, followed at once by a denomination.
pub open spec fn coin_of(text: Seq<char>) -> Option<CoinView> {
    let t = trim(text);
    let d: int = leading_digits(t) as int;
    let amount: nat = decimal(t.take(d));
    let denom = t.skip(d);
    if d > 0 && amount <= u128::MAX && is_denom(denom) {
        Some(CoinView { amount, denom })
    } else {
        None
    }
}

fn char_is_letter(c: char) -> (b: bool)
    ensures
        b == is_letter(c),
{
    ('a' <= c && c <= 'z') || ('A' <= c && c <= 'Z')
}

fn char_is_denom_char(c: char) -> (b: bool)
    ensures
        b == is_denom_char(c),
{
    char_is_letter(c) || ('0' <= c && c <= '9') || c == '/' || c == '.' || c == '_' || c == '-'
}

fn check_denom(s: &Vec<char>, from: usize, to: usize) -> (b: bool)
    requires
        from <= to <= s.len(),
    ensures
        b == is_denom(s@.subrange(from as int, to as int)),
{
    let ghost denom = s@.subrange(from as int, to as int);
    if from == to || !char_is_letter(s[from]) {
        assert(from < to ==> denom[0] == s@[from as int]);
        return false;
    }
    let mut i: usize = from;
    while i < to
        invariant
            from <= i <= to <= s.len(),
            denom == s@.subrange(from as int, to as int),
            forall|j: int| 0 <= j < i - from ==> is_denom_char(#[trigger] denom[j]),
        decreases to - i,
    {
        if !char_is_denom_char(s[i]) {
            assert(denom[i - from] == s@[i as int]);
            return false;
        }
        assert(denom[i - from] == s@[i as int]);
        i = i + 1;
    }
    assert(denom[0] == s@[from as int]);
    true
}

/// Reads the coin that `chars[from..to]` writes; `text` holds the same
/// characters as `chars`.
pub(crate) fn parse_coin_in(text: &str, chars: &Vec<char>, from: usize, to: usize) -> (r: Option<Coin>)
    requires
        chars@ == text@,
        from <= to <= chars.len(),
    ensures
        match r {
            Some(c) => coin_of(chars@.subrange(from as int, to as int)) == Some(c@),
            None => coin_of(chars@.subrange(from as int, to as int)) is None,
        },
{
    let ghost whole = chars@.subrange(from as int, to as int);
    let a: usize = skip_spaces(chars, from, to);
    let b: usize = drop_spaces(chars, a, to);
    let d: usize = skip_digits(chars, a, b);
    proof {
        assert(whole.skip(a - from) =~= chars@.subrange(a as int, to as int));
        assert(trim(whole) =~= chars@.subrange(a as int, b as int));
        assert(trim(whole).take(d - a) =~= chars@.subrange(a as int, d as int));
        assert(trim(whole).skip(d - a) =~= chars@.subrange(d as int, b as int));
    }
    if d == a {
        return None;
    }
    assert(all_digits(chars@.subrange(a as int, d as int))) by {
        assert forall|i: int| 0 <= i < d - a implies is_digit(
            #[trigger] chars@.subrange(a as int, d as int)[i],
        ) by {
            assert(is_digit(chars@[a + i]));
        }
    }
    let amount: u128 = match read_decimal(chars, a, d) {
        Some(v) => v,
        None => {
            return None;
        },
    };
    if !check_denom(chars, d, b) {
        return None;
    }
    let denom: String = text.substring_char(d, b).to_owned();
    Some(Coin { amount, denom })
}

/// Reads the coin that `text` writes, such as `100uatom`.
pub fn parse_coin(text: &str) -> (r: Option<Coin>)
    ensures
        match r {
            Some(c) => coin_of(text@) == Some(c@),
            None => coin_of(text@) is None,
        },
{
    let chars: Vec<char> = chars_of(text);
    assert(chars@.subrange(0, chars@.len() as int) =~= text@);
    parse_coin_in(text, &chars, 0, chars.len())
}

impl Coin {
    /// The sum of two coins of one denomination; none where the
    /// denominations differ or a `u128` cannot hold the sum.
    pub fn checked_add(&self, other: &Coin) -> (r: Option<Coin>)
        ensures
            match r {
                Some(c) => self.denom@ == other.denom@ && c@ == (CoinView {
                    amount: (self.amount + other.amount) as nat,
                    denom: self.denom@,
                }),
                None => self.denom@ != other.denom@ || self.amount + other.amount > u128::MAX,
            },
    {
        if self.denom != other.denom {
            return None;
        }
        match self.amount.checked_add(other.amount) {
            Some(amount) => Some(Coin { amount, denom: self.denom.clone() }),
            None => None,
        }
    }
}

/// Blanks, then an amount in digits, then at once a denomination write
/// the coin of that amount and denomination.
pub proof fn lemma_coin_of_written(blanks: Seq<char>, amount: Seq<char>, denom: Seq<char>)
    requires
        forall|i: int| 0 <= i < blanks.len() ==> is_space(blanks[i]),
        amount.len() > 0,
        forall|i: int| 0 <= i < amount.len() ==> is_digit(amount[i]),
        decimal(amount) <= u128::MAX,
        is_denom(denom),
    ensures
        coin_of(blanks + amount + denom) == Some(CoinView { amount: decimal(amount), denom }),
{
    let text = blanks + amount + denom;
    let written = amount + denom;
    assert(is_letter(denom[0]));
    assert(is_denom_char(denom.last()));
    lemma_leading_spaces(text, blanks.len() as int);
    assert(text.skip(blanks.len() as int) =~= written);
    assert(written.last() == denom.last());
    assert(trailing_spaces(written) == 0);
    assert(written.take(written.len() as int) =~= written);
    assert(trim(text) == written);
    lemma_leading_digits(written, amount.len() as int);
    assert(written.take(amount.len() as int) =~= amount);
    assert(written.skip(amount.len() as int) =~= denom);
}

} // verus!
