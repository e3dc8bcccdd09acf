//! Scanning of text as a sequence of characters.

use vstd::prelude::*;

verus! {

/// Whether `c` is a blank: a space, a tab or the end of a line.
pub open spec fn is_space(c: char) -> bool {
    c == ' ' || c == '\t' || c == '\n' || c == '\r'
}

/// Whether `c` is a decimal digit.
pub open spec fn is_digit(c: char) -> bool {
    '0' <= c <= '9'
}

/// Whether `s` holds digits alone.
pub open spec fn all_digits(s: Seq<char>) -> bool {
    forall|i: int| 0 <= i < s.len() ==> is_digit(#[trigger] s[i])
}

/// The value of a decimal digit.
pub open spec fn digit_value(c: char) -> nat {
    (c as nat - '0' as nat) as nat
}

/// The position of the first `c` in `s`, or `s.len()` where `s` holds none.
pub open spec fn index_of(s: Seq<char>, c: char) -> nat
    decreases s.len(),
{
    if s.len() == 0 || s[0] == c {
        0
    } else {
        1 + index_of(s.drop_first(), c)
    }
}

/// Whether `pat` stands in `s` at position `i`.
pub open spec fn occurs_at(s: Seq<char>, pat: Seq<char>, i: int) -> bool {
    0 <= i && i + pat.len() <= s.len() && s.subrange(i, i + pat.len()) == pat
}

/// Whether `pat` occurs anywhere in `s`.
pub open spec fn has_infix(s: Seq<char>, pat: Seq<char>) -> bool {
    exists|i: int| occurs_at(s, pat, i)
}

/// The `k`-th item (counted from zero) of `s` cut at every `sep`, if `s`
/// has that many items. A text without `sep` is one item.
pub open spec fn field(s: Seq<char>, sep: char, k: nat) -> Option<Seq<char>>
    decreases k,
{
    let i: int = index_of(s, sep) as int;
    if k == 0 {
        Some(s.take(i))
    } else if i >= s.len() {
        None
    } else {
        field(s.skip(i + 1), sep, (k - 1) as nat)
    }
}

/// How many blanks `s` begins with.
pub open spec fn leading_spaces(s: Seq<char>) -> nat
    decreases s.len(),
{
    if s.len() > 0 && is_space(s[0]) {
        1 + leading_spaces(s.drop_first())
    } else {
        0
    }
}

/// How many blanks `s` ends with.
pub open spec fn trailing_spaces(s: Seq<char>) -> nat
    decreases s.len(),
{
    if s.len() > 0 && is_space(s.last()) {
        1 + trailing_spaces(s.drop_last())
    } else {
        0
    }
}

/// `s` without the blanks at either end.
pub open spec fn trim(s: Seq<char>) -> Seq<char> {
    let t = s.skip(leading_spaces(s) as int);
    t.take(t.len() - trailing_spaces(t))
}

/// How many decimal digits `s` begins with.
pub open spec fn leading_digits(s: Seq<char>) -> nat
    decreases s.len(),
{
    if s.len() > 0 && is_digit(s[0]) {
        1 + leading_digits(s.drop_first())
    } else {
        0
    }
}

/// The number that the digits of `s` write in base ten; zero for no digits.
pub open spec fn decimal(s: Seq<char>) -> nat
    decreases s.len(),
{
    if s.len() == 0 {
        0
    } else {
        decimal(s.drop_last()) * 10 + digit_value(s.last())
    }
}

/// The characters of `text`, in order.
pub fn chars_of(text: &str) -> (chars: Vec<char>)
    ensures
        chars@ == text@,
{
    let mut chars: Vec<char> = Vec::new();
    for c in it: text.chars()
        invariant
            chars@ == it.seq().take(it.index() as int),
            it.seq() == text@,
    {
        chars.push(c);
    }
    chars
}

/// Tells whether `c` is a blank.
pub fn char_is_space(c: char) -> (b: bool)
    ensures
        b == is_space(c),
{
    c == ' ' || c == '\t' || c == '\n' || c == '\r'
}

/// Tells whether `c` is a decimal digit.
pub fn char_is_digit(c: char) -> (b: bool)
    ensures
        b == is_digit(c),
{
    '0' <= c && c <= '9'
}

/// Finds the first `c` in `s[from..to]`; `to` where that range holds none.
pub fn find(s: &Vec<char>, c: char, from: usize, to: usize) -> (at: usize)
    requires
        from <= to <= s.len(),
    ensures
        from <= at <= to,
        at - from == index_of(s@.subrange(from as int, to as int), c),
{
    let mut i: usize = from;
    while i < to && s[i] != c
        invariant
            from <= i <= to <= s.len(),
            index_of(s@.subrange(from as int, to as int), c) == (i - from) + index_of(
                s@.subrange(i as int, to as int),
                c,
            ),
        decreases to - i,
    {
        assert(s@.subrange(i as int, to as int).drop_first() =~= s@.subrange(
            i as int + 1,
            to as int,
        ));
        i = i + 1;
    }
    i
}

fn matches_at(s: &Vec<char>, pat: &Vec<char>, i: usize) -> (b: bool)
    requires
        i + pat.len() <= s.len(),
    ensures
        b == occurs_at(s@, pat@, i as int),
{
    let mut k: usize = 0;
    while k < pat.len()
        invariant
            k <= pat.len(),
            i + pat.len() <= s.len(),
            forall|j: int| 0 <= j < k ==> s@[i + j] == pat@[j],
        decreases pat.len() - k,
    {
        if s[i + k] != pat[k] {
            assert(s@.subrange(i as int, i + pat.len())[k as int] == s@[i + k]);
            return false;
        }
        k = k + 1;
    }
    assert(s@.subrange(i as int, i + pat.len()) =~= pat@);
    true
}

/// Tells whether `pat` occurs in `s`.
pub fn contains(s: &Vec<char>, pat: &Vec<char>) -> (b: bool)
    ensures
        b == has_infix(s@, pat@),
{
    if pat.len() > s.len() {
        return false;
    }
    let last: usize = s.len() - pat.len();
    let mut i: usize = 0;
    loop
        invariant
            i <= last,
            last + pat.len() == s.len(),
            forall|j: int| 0 <= j < i ==> !occurs_at(s@, pat@, j),
        decreases last - i,
    {
        if matches_at(s, pat, i) {
            return true;
        }
        if i == last {
            return false;
        }
        i = i + 1;
    }
}

/// Finds the `k`-th item of `s` cut at every `sep`: the range it takes in `s`.
pub fn find_field(s: &Vec<char>, sep: char, k: usize) -> (r: Option<(usize, usize)>)
    ensures
        match r {
            Some((a, b)) => a <= b <= s.len() && field(s@, sep, k as nat) == Some(
                s@.subrange(a as int, b as int),
            ),
            None => field(s@, sep, k as nat) is None,
        },
{
    let n: usize = s.len();
    let mut from: usize = 0;
    let mut left: usize = k;
    assert(s@.skip(0) =~= s@);
    loop
        invariant
            from <= n == s.len(),
            left <= k,
            field(s@, sep, k as nat) == field(s@.skip(from as int), sep, left as nat),
        decreases left,
    {
        let at: usize = find(s, sep, from, n);
        assert(s@.subrange(from as int, n as int) =~= s@.skip(from as int));
        if left == 0 {
            assert(s@.skip(from as int).take(at - from) =~= s@.subrange(from as int, at as int));
            return Some((from, at));
        }
        if at >= n {
            return None;
        }
        assert(s@.skip(from as int).skip(at - from + 1) =~= s@.skip(at as int + 1));
        from = at + 1;
        left = left - 1;
    }
}

/// Passes over the blanks that `s[from..to]` begins with.
pub fn skip_spaces(s: &Vec<char>, from: usize, to: usize) -> (at: usize)
    requires
        from <= to <= s.len(),
    ensures
        from <= at <= to,
        at - from == leading_spaces(s@.subrange(from as int, to as int)),
{
    let mut i: usize = from;
    while i < to && char_is_space(s[i])
        invariant
            from <= i <= to <= s.len(),
            leading_spaces(s@.subrange(from as int, to as int)) == (i - from) + leading_spaces(
                s@.subrange(i as int, to as int),
            ),
        decreases to - i,
    {
        assert(s@.subrange(i as int, to as int).drop_first() =~= s@.subrange(
            i as int + 1,
            to as int,
        ));
        i = i + 1;
    }
    i
}

/// Passes backwards over the blanks that `s[from..to]` ends with.
pub fn drop_spaces(s: &Vec<char>, from: usize, to: usize) -> (at: usize)
    requires
        from <= to <= s.len(),
    ensures
        from <= at <= to,
        to - at == trailing_spaces(s@.subrange(from as int, to as int)),
{
    let mut i: usize = to;
    while i > from && char_is_space(s[i - 1])
        invariant
            from <= i <= to <= s.len(),
            trailing_spaces(s@.subrange(from as int, to as int)) == (to - i) + trailing_spaces(
                s@.subrange(from as int, i as int),
            ),
        decreases i - from,
    {
        assert(s@.subrange(from as int, i as int).drop_last() =~= s@.subrange(
            from as int,
            i as int - 1,
        ));
        i = i - 1;
    }
    i
}

/// Passes over the digits that `s[from..to]` begins with.
pub fn skip_digits(s: &Vec<char>, from: usize, to: usize) -> (at: usize)
    requires
        from <= to <= s.len(),
    ensures
        from <= at <= to,
        at - from == leading_digits(s@.subrange(from as int, to as int)),
        forall|j: int| from <= j < at ==> is_digit(s@[j]),
{
    let mut i: usize = from;
    while i < to && char_is_digit(s[i])
        invariant
            from <= i <= to <= s.len(),
            leading_digits(s@.subrange(from as int, to as int)) == (i - from) + leading_digits(
                s@.subrange(i as int, to as int),
            ),
            forall|j: int| from <= j < i ==> is_digit(s@[j]),
        decreases to - i,
    {
        assert(s@.subrange(i as int, to as int).drop_first() =~= s@.subrange(
            i as int + 1,
            to as int,
        ));
        i = i + 1;
    }
    i
}

/// Reads `s[from..to]` as a number in base ten: none where a character of
/// it is no digit, or where the number is larger than a `u128` holds.
pub fn read_decimal(s: &Vec<char>, from: usize, to: usize) -> (r: Option<u128>)
    requires
        from <= to <= s.len(),
    ensures
        match r {
            Some(v) => all_digits(s@.subrange(from as int, to as int)) && v == decimal(
                s@.subrange(from as int, to as int),
            ),
            None => !all_digits(s@.subrange(from as int, to as int)) || decimal(
                s@.subrange(from as int, to as int),
            ) > u128::MAX,
        },
{
    let ghost whole = s@.subrange(from as int, to as int);
    let mut value: u128 = 0;
    let mut i: usize = from;
    while i < to
        invariant
            from <= i <= to <= s.len(),
            whole == s@.subrange(from as int, to as int),
            forall|j: int| 0 <= j < i - from ==> is_digit(#[trigger] whole[j]),
            value == decimal(s@.subrange(from as int, i as int)),
        decreases to - i,
    {
        assert(whole[i - from] == s@[i as int]);
        if !char_is_digit(s[i]) {
            return None;
        }
        let digit: u128 = (s[i] as u32 - '0' as u32) as u128;
        proof {
            let next = s@.subrange(from as int, i as int + 1);
            assert(next.drop_last() =~= s@.subrange(from as int, i as int));
            assert(next.last() == s@[i as int]);
            assert(digit == digit_value(s@[i as int]));
            assert(decimal(next) == value * 10 + digit);
            assert(whole.take(i + 1 - from) =~= next);
            lemma_decimal_prefix(whole, i + 1 - from);
        }
        let shifted: u128 = match value.checked_mul(10) {
            Some(v) => v,
            None => {
                return None;
            },
        };
        value = match shifted.checked_add(digit) {
            Some(v) => v,
            None => {
                return None;
            },
        };
        i = i + 1;
    }
    Some(value)
}

/// A number written with more digits is no smaller than the number that
/// its first `k` digits write.
pub proof fn lemma_decimal_prefix(s: Seq<char>, k: int)
    requires
        0 <= k <= s.len(),
    ensures
        decimal(s.take(k)) <= decimal(s),
    decreases s.len() - k,
{
    if k == s.len() {
        assert(s.take(k) =~= s);
    } else {
        lemma_decimal_prefix(s.drop_last(), k);
        assert(s.drop_last().take(k) =~= s.take(k));
    }
}

/// `index_of` is the first position that holds `c`: where no position
/// before `i` holds `c`, and `i` does or is the end, it is `i`.
pub proof fn lemma_index_of(s: Seq<char>, c: char, i: int)
    requires
        0 <= i <= s.len(),
        forall|j: int| 0 <= j < i ==> s[j] != c,
        i < s.len() ==> s[i] == c,
    ensures
        index_of(s, c) == i,
    decreases i,
{
    if i > 0 {
        let rest = s.drop_first();
        assert forall|j: int| 0 <= j < i - 1 implies rest[j] != c by {
            assert(rest[j] == s[j + 1]);
        }
        lemma_index_of(rest, c, i - 1);
    }
}

/// Where the first `n` characters of `s` are blanks and the next is none,
/// `s` begins with `n` blanks.
pub proof fn lemma_leading_spaces(s: Seq<char>, n: int)
    requires
        0 <= n <= s.len(),
        forall|j: int| 0 <= j < n ==> is_space(s[j]),
        n < s.len() ==> !is_space(s[n]),
    ensures
        leading_spaces(s) == n,
    decreases n,
{
    if n > 0 {
        let rest = s.drop_first();
        assert forall|j: int| 0 <= j < n - 1 implies is_space(rest[j]) by {
            assert(rest[j] == s[j + 1]);
        }
        lemma_leading_spaces(rest, n - 1);
    }
}

/// Where the first `n` characters of `s` are digits and the next is none,
/// `s` begins with `n` digits.
pub proof fn lemma_leading_digits(s: Seq<char>, n: int)
    requires
        0 <= n <= s.len(),
        forall|j: int| 0 <= j < n ==> is_digit(s[j]),
        n < s.len() ==> !is_digit(s[n]),
    ensures
        leading_digits(s) == n,
    decreases n,
{
    if n > 0 {
        let rest = s.drop_first();
        assert forall|j: int| 0 <= j < n - 1 implies is_digit(rest[j]) by {
            assert(rest[j] == s[j + 1]);
        }
        lemma_leading_digits(rest, n - 1);
    }
}

} // verus!
