//! Text primitives: substring search and the reading of decimal tokens.

use vstd::arithmetic::power::pow;
use vstd::prelude::*;
use vstd::slice::slice_subrange;

use crate::event::Millis;

verus! {

broadcast use vstd::string::group_string_axioms;

/// `needle` stands in `hay` at position `at`.
pub open spec fn occurs_at(hay: Seq<char>, needle: Seq<char>, at: int) -> bool {
    &&& 0 <= at
    &&& at + needle.len() <= hay.len()
    &&& hay.subrange(at, at + needle.len()) == needle
}

/// `needle` stands somewhere in `hay`. The empty needle stands in every text.
pub open spec fn has_substring(hay: Seq<char>, needle: Seq<char>) -> bool {
    exists|at: int| occurs_at(hay, needle, at)
}

/// The first `n` characters of `needle` agree with `hay` from position `at` on.
spec fn agrees_upto(hay: Seq<char>, needle: Seq<char>, at: int, n: int) -> bool {
    forall|k: int| 0 <= k < n ==> hay[at + k] == needle[k]
}

/// The characters of a string slice, in order.
pub fn to_chars(s: &str) -> (chars: Vec<char>)
    ensures
        chars@ == s@,
{
    let mut chars: Vec<char> = Vec::new();
    for c in it: s.chars()
        invariant
            it.seq() == s@,
            chars@ == it.seq().take(it.index() as int),
    {
        chars.push(c);
    }
    chars
}

/// Whether `needle` stands in `hay` at position `at`.
pub fn matches_at(hay: &[char], needle: &[char], at: usize) -> (found: bool)
    ensures
        found == occurs_at(hay@, needle@, at as int),
{
    if at > hay.len() || needle.len() > hay.len() - at {
        return false;
    }
    let mut k: usize = 0;
    while k < needle.len()
        invariant
            k <= needle.len(),
            at + needle.len() <= hay.len(),
            agrees_upto(hay@, needle@, at as int, k as int),
        decreases needle.len() - k,
    {
        if hay[at + k] != needle[k] {
            proof {
                let sub = hay@.subrange(at as int, at + needle.len());
                assert(sub[k as int] == hay@[at + k]);
            }
            return false;
        }
        k += 1;
    }
    assert(hay@.subrange(at as int, at + needle.len()) =~= needle@);
    true
}

/// Whether `needle` stands somewhere in `hay`.
pub fn contains(hay: &[char], needle: &[char]) -> (found: bool)
    ensures
        found == has_substring(hay@, needle@),
{
    if needle.len() > hay.len() {
        return false;
    }
    let last: usize = hay.len() - needle.len();
    let mut at: usize = 0;
    while at < last
        invariant
            last == hay.len() - needle.len(),
            at <= last,
            forall|j: int| 0 <= j < at ==> !occurs_at(hay@, needle@, j),
        decreases last - at,
    {
        if matches_at(hay, needle, at) {
            return true;
        }
        at += 1;
    }
    matches_at(hay, needle, last)
}

/// Whether the text `needle` stands somewhere in `hay`.
pub fn contains_str(hay: &[char], needle: &str) -> (found: bool)
    ensures
        found == has_substring(hay@, needle@),
{
    let pattern = to_chars(needle);
    contains(hay, pattern.as_slice())
}

/// A decimal digit of the ASCII range.
pub open spec fn is_digit(c: char) -> bool {
    '0' <= c && c <= '9'
}

/// What a digit counts for.
pub open spec fn digit_value(c: char) -> nat
    recommends
        is_digit(c),
{
    (c as u32 - '0' as u32) as nat
}

/// Every character of `s` is a decimal digit.
pub open spec fn all_digits(s: Seq<char>) -> bool {
    forall|i: int| 0 <= i < s.len() ==> is_digit(#[trigger] s[i])
}

/// The number that a run of digits writes in base ten; leading zeros count for nothing.
pub open spec fn decimal_value(s: Seq<char>) -> nat
    decreases s.len(),
{
    if s.len() == 0 {
        0
    } else {
        10 * decimal_value(s.drop_last()) + digit_value(s.last())
    }
}

/// The number a token stands for: it has to be a non-empty run of decimal digits whose
/// value fits into 64 bits.
pub open spec fn number_of(token: Seq<char>) -> Option<u64> {
    if token.len() > 0 && all_digits(token) && decimal_value(token) <= u64::MAX {
        Some(decimal_value(token) as u64)
    } else {
        None
    }
}

/// A longer run of digits never writes a smaller number than its beginning.
pub proof fn lemma_decimal_value_grows(s: Seq<char>, n: int)
    requires
        0 <= n <= s.len(),
    ensures
        decimal_value(s.take(n)) <= decimal_value(s),
    decreases s.len() - n,
{
    if n == s.len() {
        assert(s.take(n) =~= s);
    } else {
        lemma_decimal_value_grows(s, n + 1);
        assert(s.take(n + 1).drop_last() =~= s.take(n));
    }
}

/// A run of `n` digits writes a number below the `n`-th power of ten.
pub proof fn lemma_decimal_value_bound(s: Seq<char>)
    requires
        all_digits(s),
    ensures
        decimal_value(s) < pow(10, s.len()),
    decreases s.len(),
{
    reveal(pow);
    if s.len() > 0 {
        assert forall|i: int| 0 <= i < s.drop_last().len() implies is_digit(
            #[trigger] s.drop_last()[i],
        ) by {
            assert(s.drop_last()[i] == s[i]);
        }
        lemma_decimal_value_bound(s.drop_last());
        assert(is_digit(s.last()));
    }
}

/// Reads a token as an unsigned decimal number.
pub fn parse_number(token: &[char]) -> (number: Option<u64>)
    ensures
        number == number_of(token@),
{
    if token.len() == 0 {
        return None;
    }
    let mut value: u64 = 0;
    let mut i: usize = 0;
    while i < token.len()
        invariant
            i <= token.len(),
            all_digits(token@.take(i as int)),
            value == decimal_value(token@.take(i as int)),
        decreases token.len() - i,
    {
        let c: char = token[i];
        if c < '0' || c > '9' {
            assert(!is_digit(token@[i as int]));
            return None;
        }
        let digit: u64 = (c as u32 - '0' as u32) as u64;
        proof {
            assert(token@.take(i + 1).drop_last() =~= token@.take(i as int));
            assert(token@.take(i + 1).last() == c);
            lemma_decimal_value_grows(token@, i + 1);
        }
        if value > (u64::MAX - digit) / 10 {
            return None;
        }
        value = value * 10 + digit;
        i += 1;
        assert forall|k: int| 0 <= k < i implies is_digit(#[trigger] token@.take(i as int)[k]) by {
            if k < i - 1 {
                assert(token@.take(i as int)[k] == token@.take(i - 1)[k]);
            }
        }
    }
    assert(token@.take(i as int) =~= token@);
    Some(value)
}

/// `token` is a run of digits, a dot at position `dot`, and a second run of digits, both
/// of which stand for a number; and its length is one that a text in memory can have.
pub open spec fn is_decimal_split(token: Seq<char>, dot: int) -> bool {
    &&& 0 <= dot < token.len() <= usize::MAX
    &&& token[dot] == '.'
    &&& number_of(token.take(dot)) is Some
    &&& number_of(token.skip(dot + 1)) is Some
}

/// The duration that a token split at `dot` writes.
pub open spec fn millis_at(token: Seq<char>, dot: int) -> Millis {
    Millis {
        whole: number_of(token.take(dot)).unwrap(),
        frac: number_of(token.skip(dot + 1)).unwrap(),
        frac_digits: (token.len() - dot - 1) as usize,
    }
}

/// The duration a token of the form `<digits>.<digits>` stands for, if it has that form
/// and both numbers fit into 64 bits.
pub open spec fn millis_of(token: Seq<char>) -> Option<Millis> {
    if exists|dot: int| is_decimal_split(token, dot) {
        Some(millis_at(token, choose|dot: int| is_decimal_split(token, dot)))
    } else {
        None
    }
}

/// A token splits into two numbers at one place only: its first dot.
pub proof fn lemma_decimal_split_unique(token: Seq<char>, a: int, b: int)
    requires
        is_decimal_split(token, a),
        is_decimal_split(token, b),
    ensures
        a == b,
{
    if a < b {
        assert(token.take(b)[a] == token[a]);
        assert(!is_digit(token.take(b)[a]));
    } else if b < a {
        assert(token.take(a)[b] == token[b]);
        assert(!is_digit(token.take(a)[b]));
    }
}

/// Where a token splits at `dot`, that split is the duration it stands for.
pub proof fn lemma_millis_of_split(token: Seq<char>, dot: int)
    requires
        is_decimal_split(token, dot),
    ensures
        millis_of(token) == Some(millis_at(token, dot)),
{
    let chosen = choose|d: int| is_decimal_split(token, d);
    lemma_decimal_split_unique(token, chosen, dot);
}

/// The duration that a token stands for has a fraction below one.
pub proof fn lemma_millis_of_well_formed(token: Seq<char>)
    ensures
        millis_of(token) matches Some(millis) ==> millis.well_formed(),
{
    if exists|dot: int| is_decimal_split(token, dot) {
        let dot = choose|dot: int| is_decimal_split(token, dot);
        lemma_decimal_value_bound(token.skip(dot + 1));
    }
}

/// Reads a token of the form `<digits>.<digits>` as a duration in milliseconds.
pub fn parse_millis(token: &[char]) -> (millis: Option<Millis>)
    ensures
        millis == millis_of(token@),
        millis matches Some(duration) ==> duration.well_formed(),
{
    proof {
        lemma_millis_of_well_formed(token@);
    }
    let mut dot: usize = 0;
    while dot < token.len() && token[dot] != '.'
        invariant
            dot <= token.len(),
            forall|j: int| 0 <= j < dot ==> token@[j] != '.',
        decreases token.len() - dot,
    {
        dot += 1;
    }
    if dot >= token.len() {
        assert forall|d: int| !is_decimal_split(token@, d) by {}
        return None;
    }
    let head = slice_subrange(token, 0, dot);
    let tail = slice_subrange(token, dot + 1, token.len());
    assert(head@ =~= token@.take(dot as int));
    assert(tail@ =~= token@.skip(dot + 1));
    let whole = parse_number(head);
    let frac = parse_number(tail);
    proof {
        assert forall|d: int| is_decimal_split(token@, d) implies d == dot by {
            if d < dot {
                assert(token@[d] == '.');
            } else if d > dot {
                assert(token@.take(d)[dot as int] == token@[dot as int]);
                assert(!is_digit(token@.take(d)[dot as int]));
            }
        }
    }
    match (whole, frac) {
        (Some(w), Some(f)) => {
            proof {
                lemma_millis_of_split(token@, dot as int);
            }
            Some(Millis { whole: w, frac: f, frac_digits: token.len() - dot - 1 })
        },
        _ => None,
    }
}

} // verus!
