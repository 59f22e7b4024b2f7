//! Text helpers on character sequences: conversion between strings and
//! character vectors, concatenation, prefixes, decimal numerals, white space
//! and substring replacement.

use vstd::prelude::*;
use vstd::string::*;

verus! {

broadcast use vstd::string::group_string_axioms;

/// `String::push`: appends one character to the end of the string.
#[verifier::external_body]
fn push_char(s: &mut String, c: char)
    ensures
        final(s)@ == old(s)@.push(c),
{
    s.push(c)
}

/// The characters of `s`, in order.
pub fn to_chars(s: &str) -> (chars: Vec<char>)
    ensures
        chars@ == s@,
{
    let mut chars: Vec<char> = Vec::new();
    for c in it: s.chars()
        invariant
            it.seq() == s@,
            chars@ == s@.take(it.index() as int),
    {
        chars.push(c);
    }
    chars
}

/// The string made of `chars`, in order.
pub fn from_chars(chars: &Vec<char>) -> (s: String)
    ensures
        s@ == chars@,
{
    let mut s = String::new();
    let mut i: usize = 0;
    while i < chars.len()
        invariant
            i <= chars.len(),
            s@ == chars@.take(i as int),
        decreases chars.len() - i,
    {
        push_char(&mut s, chars[i]);
        i += 1;
    }
    s
}

/// `a` followed by `b`.
pub fn concat(a: &str, b: &str) -> (s: String)
    ensures
        s@ == a@ + b@,
{
    let mut s = a.to_owned();
    s.append(b);
    s
}

/// Whether `pattern` occurs in `s` starting at index `at`.
pub open spec fn occurs_at(s: Seq<char>, at: int, pattern: Seq<char>) -> bool {
    0 <= at && at + pattern.len() <= s.len() && s.subrange(at, at + pattern.len()) == pattern
}

/// Decides whether `pattern` occurs in `s` at index `at`.
pub fn matches_at(s: &Vec<char>, at: usize, pattern: &Vec<char>) -> (found: bool)
    ensures
        found == occurs_at(s@, at as int, pattern@),
{
    if at > s.len() || pattern.len() > s.len() - at {
        return false;
    }
    let mut k: usize = 0;
    while k < pattern.len()
        invariant
            at + pattern.len() <= s.len(),
            k <= pattern.len(),
            forall|j: int| 0 <= j < k ==> s@[at + j] == pattern@[j],
        decreases pattern.len() - k,
    {
        if s[at + k] != pattern[k] {
            assert(s@.subrange(at as int, at + pattern.len())[k as int] != pattern@[k as int]);
            return false;
        }
        k += 1;
    }
    assert(s@.subrange(at as int, at + pattern.len()) =~= pattern@);
    true
}

/// Decides whether `s` begins with `prefix`.
pub fn starts_with(s: &str, prefix: &str) -> (found: bool)
    ensures
        found == prefix@.is_prefix_of(s@),
{
    let chars = to_chars(s);
    let pattern = to_chars(prefix);
    matches_at(&chars, 0, &pattern)
}

/// Decides whether `a` and `b` hold the same characters.
pub fn str_eq(a: &str, b: &str) -> (same: bool)
    ensures
        same == (a@ == b@),
{
    let x = to_chars(a);
    let y = to_chars(b);
    if x.len() != y.len() {
        return false;
    }
    let found = matches_at(&x, 0, &y);
    assert(x@.subrange(0, x@.len() as int) =~= x@);
    found
}

/// The character that writes the decimal digit `d`.
pub open spec fn digit_char(d: int) -> char {
    if d == 0 {
        '0'
    } else if d == 1 {
        '1'
    } else if d == 2 {
        '2'
    } else if d == 3 {
        '3'
    } else if d == 4 {
        '4'
    } else if d == 5 {
        '5'
    } else if d == 6 {
        '6'
    } else if d == 7 {
        '7'
    } else if d == 8 {
        '8'
    } else {
        '9'
    }
}

/// The decimal numeral of a natural number, without leading zeros.
pub open spec fn nat_digits(n: nat) -> Seq<char>
    decreases n,
{
    if n < 10 {
        seq![digit_char(n as int)]
    } else {
        nat_digits(n / 10).push(digit_char((n % 10) as int))
    }
}

/// The decimal numeral of an integer, with a minus sign if it is negative.
pub open spec fn decimal(n: int) -> Seq<char> {
    if n < 0 {
        seq!['-'] + nat_digits((-n) as nat)
    } else {
        nat_digits(n as nat)
    }
}

fn digit_str(d: u64) -> (s: &'static str)
    requires
        d < 10,
    ensures
        s@ == seq![digit_char(d as int)],
{
    proof {
        reveal_strlit("0");
        reveal_strlit("1");
        reveal_strlit("2");
        reveal_strlit("3");
        reveal_strlit("4");
        reveal_strlit("5");
        reveal_strlit("6");
        reveal_strlit("7");
        reveal_strlit("8");
        reveal_strlit("9");
    }
    let s = if d == 0 {
        "0"
    } else if d == 1 {
        "1"
    } else if d == 2 {
        "2"
    } else if d == 3 {
        "3"
    } else if d == 4 {
        "4"
    } else if d == 5 {
        "5"
    } else if d == 6 {
        "6"
    } else if d == 7 {
        "7"
    } else if d == 8 {
        "8"
    } else {
        "9"
    };
    assert(s@ =~= seq![digit_char(d as int)]);
    s
}

/// Writes a natural number in decimal.
pub fn nat_to_string(n: u64) -> (s: String)
    ensures
        s@ == nat_digits(n as nat),
    decreases n,
{
    if n < 10 {
        digit_str(n).to_owned()
    } else {
        let mut s = nat_to_string(n / 10);
        s.append(digit_str(n % 10));
        assert(s@ =~= nat_digits(n as nat));
        s
    }
}

/// Writes an integer in decimal.
pub fn int_to_string(n: i64) -> (s: String)
    ensures
        s@ == decimal(n as int),
{
    if n < 0 {
        let magnitude: u64 = if n == i64::MIN {
            9223372036854775808u64
        } else {
            (-n) as u64
        };
        let digits = nat_to_string(magnitude);
        proof {
            reveal_strlit("-");
        }
        let s = concat("-", digits.as_str());
        assert(s@ =~= decimal(n as int));
        s
    } else {
        nat_to_string(n as u64)
    }
}

/// `prefix` followed by the decimal numeral of `n`.
pub fn concat_int(prefix: &str, n: i32) -> (s: String)
    ensures
        s@ == prefix@ + decimal(n as int),
{
    let numeral = int_to_string(n as i64);
    concat(prefix, numeral.as_str())
}

/// Whether `c` has the Unicode property `White_Space`.
pub open spec fn is_white_space(c: char) -> bool {
    let u = c as u32;
    ||| 0x09 <= u <= 0x0D
    ||| u == 0x20
    ||| u == 0x85
    ||| u == 0xA0
    ||| u == 0x1680
    ||| 0x2000 <= u <= 0x200A
    ||| u == 0x2028
    ||| u == 0x2029
    ||| u == 0x202F
    ||| u == 0x205F
    ||| u == 0x3000
}

/// Decides whether `c` is a white-space character.
pub fn char_is_white_space(c: char) -> (r: bool)
    ensures
        r == is_white_space(c),
{
    let u: u32 = c as u32;
    (0x09 <= u && u <= 0x0D) || u == 0x20 || u == 0x85 || u == 0xA0 || u == 0x1680 || (0x2000 <= u
        && u <= 0x200A) || u == 0x2028 || u == 0x2029 || u == 0x202F || u == 0x205F || u == 0x3000
}

/// Whether `s` holds nothing but white space.
pub open spec fn is_blank(s: Seq<char>) -> bool {
    forall|i: int| 0 <= i < s.len() ==> is_white_space(#[trigger] s[i])
}

/// Decides whether `s` holds nothing but white space.
pub fn str_is_blank(s: &str) -> (r: bool)
    ensures
        r == is_blank(s@),
{
    let chars = to_chars(s);
    let mut i: usize = 0;
    while i < chars.len()
        invariant
            i <= chars.len(),
            chars@ == s@,
            forall|j: int| 0 <= j < i ==> is_white_space(#[trigger] chars@[j]),
        decreases chars.len() - i,
    {
        if !char_is_white_space(chars[i]) {
            return false;
        }
        i += 1;
    }
    true
}

/// `s` with every occurrence of the non-empty pattern `from` replaced by
/// `to`, scanning from the left and resuming after each replaced occurrence.
pub open spec fn replace_occurrences(s: Seq<char>, from: Seq<char>, to: Seq<char>) -> Seq<char>
    decreases s.len(),
{
    if from.len() == 0 || s.len() < from.len() {
        s
    } else if occurs_at(s, 0, from) {
        to + replace_occurrences(s.skip(from.len() as int), from, to)
    } else {
        seq![s[0]] + replace_occurrences(s.skip(1), from, to)
    }
}

/// `s` with `to` put before each of its characters, and at its end.
pub open spec fn interleaved(s: Seq<char>, to: Seq<char>) -> Seq<char>
    decreases s.len(),
{
    if s.len() == 0 {
        to
    } else {
        to + seq![s[0]] + interleaved(s.skip(1), to)
    }
}

/// `s` with every occurrence of `from` replaced by `to`, scanning from the
/// left and resuming after each replaced occurrence. The empty pattern
/// occurs before each character and at the end.
pub open spec fn replace_all(s: Seq<char>, from: Seq<char>, to: Seq<char>) -> Seq<char> {
    if from.len() == 0 {
        interleaved(s, to)
    } else {
        replace_occurrences(s, from, to)
    }
}

fn interleave(chars: &Vec<char>, to: &str) -> (out: String)
    ensures
        out@ == interleaved(chars@, to@),
{
    let mut out = String::new();
    let mut i: usize = 0;
    assert(chars@.skip(0) =~= chars@);
    while i < chars.len()
        invariant
            i <= chars.len(),
            out@ + interleaved(chars@.skip(i as int), to@) == interleaved(chars@, to@),
        decreases chars.len() - i,
    {
        let ghost rest = chars@.skip(i as int);
        assert(rest.skip(1) =~= chars@.skip(i + 1));
        assert(rest[0] == chars@[i as int]);
        let ghost before = out@;
        out.append(to);
        push_char(&mut out, chars[i]);
        assert(out@ + interleaved(rest.skip(1), to@) =~= before + interleaved(rest, to@));
        i += 1;
    }
    let ghost before = out@;
    out.append(to);
    assert(out@ =~= before + interleaved(chars@.skip(i as int), to@));
    out
}

/// Replaces every occurrence of `from` in `s` by `to`.
pub fn replace(s: &str, from: &str, to: &str) -> (out: String)
    ensures
        out@ == replace_all(s@, from@, to@),
{
    let chars = to_chars(s);
    let pattern = to_chars(from);
    if pattern.len() == 0 {
        interleave(&chars, to)
    } else {
        replace_each(&chars, &pattern, to)
    }
}

fn replace_each(chars: &Vec<char>, pattern: &Vec<char>, to: &str) -> (out: String)
    requires
        pattern@.len() > 0,
    ensures
        out@ == replace_occurrences(chars@, pattern@, to@),
{
    let mut out = String::new();
    let mut i: usize = 0;
    assert(chars@.skip(0) =~= chars@);
    while i < chars.len()
        invariant
            i <= chars.len(),
            pattern@.len() > 0,
            out@ + replace_occurrences(chars@.skip(i as int), pattern@, to@) == replace_occurrences(
                chars@,
                pattern@,
                to@,
            ),
        decreases chars.len() - i,
    {
        let ghost rest = chars@.skip(i as int);
        if matches_at(chars, i, pattern) {
            assert(rest.subrange(0, pattern@.len() as int) =~= chars@.subrange(
                i as int,
                i + pattern@.len(),
            ));
            assert(rest.skip(pattern@.len() as int) =~= chars@.skip(i + pattern@.len()));
            out.append(to);
            i += pattern.len();
        } else {
            assert(!occurs_at(rest, 0, pattern@)) by {
                if occurs_at(rest, 0, pattern@) {
                    assert(rest.subrange(0, pattern@.len() as int) =~= chars@.subrange(
                        i as int,
                        i + pattern@.len(),
                    ));
                }
            }
            assert(rest.skip(1) =~= chars@.skip(i + 1));
            assert(replace_occurrences(rest, pattern@, to@) =~= seq![rest[0]] + replace_occurrences(
                rest.skip(1),
                pattern@,
                to@,
            )) by {
                if rest.len() < pattern@.len() {
                    assert(rest =~= seq![rest[0]] + rest.skip(1));
                }
            }
            push_char(&mut out, chars[i]);
            i += 1;
        }
    }
    assert(chars@.skip(i as int).len() == 0);
    assert(out@ =~= replace_occurrences(chars@, pattern@, to@));
    out
}

/// `s` with its first occurrence of the non-empty pattern `from` replaced by
/// `to`; `s` itself where `from` does not occur in it.
pub open spec fn replace_first_occurrence(
    s: Seq<char>,
    from: Seq<char>,
    to: Seq<char>,
) -> Seq<char>
    decreases s.len(),
{
    if from.len() == 0 || s.len() < from.len() {
        s
    } else if occurs_at(s, 0, from) {
        to + s.skip(from.len() as int)
    } else {
        seq![s[0]] + replace_first_occurrence(s.skip(1), from, to)
    }
}

/// `s` with its first occurrence of `from` replaced by `to`; `s` itself where
/// `from` does not occur in it. The empty pattern occurs first at the start.
pub open spec fn replace_first(s: Seq<char>, from: Seq<char>, to: Seq<char>) -> Seq<char> {
    if from.len() == 0 {
        to + s
    } else {
        replace_first_occurrence(s, from, to)
    }
}

/// Whether `pattern` occurs somewhere in `s`.
pub open spec fn occurs_in(s: Seq<char>, pattern: Seq<char>) -> bool {
    exists|at: int| occurs_at(s, at, pattern)
}

/// Finds the first index at which `pattern` occurs in `s`.
pub fn find(s: &Vec<char>, pattern: &Vec<char>) -> (found: Option<usize>)
    ensures
        match found {
            Some(at) => occurs_at(s@, at as int, pattern@) && forall|before: int|
                0 <= before < at ==> !occurs_at(s@, before, pattern@),
            None => !occurs_in(s@, pattern@),
        },
{
    let mut i: usize = 0;
    while i < s.len()
        invariant
            i <= s.len(),
            forall|before: int| 0 <= before < i ==> !occurs_at(s@, before, pattern@),
        decreases s.len() - i,
    {
        if matches_at(s, i, pattern) {
            return Some(i);
        }
        i += 1;
    }
    if matches_at(s, i, pattern) {
        Some(i)
    } else {
        None
    }
}

/// Decides whether `pattern` occurs somewhere in `s`.
pub fn contains(s: &str, pattern: &str) -> (found: bool)
    ensures
        found == occurs_in(s@, pattern@),
{
    let chars = to_chars(s);
    let wanted = to_chars(pattern);
    find(&chars, &wanted).is_some()
}

/// Replaces the first occurrence of `from` in `s` by `to`.
pub fn replace_once(s: &str, from: &str, to: &str) -> (out: String)
    ensures
        out@ == replace_first(s@, from@, to@),
{
    let chars = to_chars(s);
    let pattern = to_chars(from);
    if pattern.len() == 0 {
        concat(to, s)
    } else {
        replace_first_of(&chars, &pattern, to)
    }
}

fn replace_first_of(chars: &Vec<char>, pattern: &Vec<char>, to: &str) -> (out: String)
    requires
        pattern@.len() > 0,
    ensures
        out@ == replace_first_occurrence(chars@, pattern@, to@),
{
    let mut out = String::new();
    let mut i: usize = 0;
    assert(chars@.skip(0) =~= chars@);
    while i < chars.len()
        invariant
            i <= chars.len(),
            pattern@.len() > 0,
            out@ + replace_first_occurrence(chars@.skip(i as int), pattern@, to@) == replace_first_occurrence(
                chars@,
                pattern@,
                to@,
            ),
        decreases chars.len() - i,
    {
        let ghost rest = chars@.skip(i as int);
        if matches_at(chars, i, pattern) {
            assert(rest.subrange(0, pattern@.len() as int) =~= chars@.subrange(
                i as int,
                i + pattern@.len(),
            ));
            out.append(to);
            i += pattern.len();
            assert(rest.skip(pattern@.len() as int) =~= chars@.skip(i as int));
            while i < chars.len()
                invariant
                    i <= chars.len(),
                                    out@ + chars@.skip(i as int) == replace_first_occurrence(chars@, pattern@, to@),
                decreases chars.len() - i,
            {
                assert(chars@.skip(i as int) =~= seq![chars@[i as int]] + chars@.skip(i + 1));
                push_char(&mut out, chars[i]);
                i += 1;
            }
            assert(chars@.skip(i as int) =~= Seq::<char>::empty());
            assert(out@ =~= replace_first_occurrence(chars@, pattern@, to@));
            return out;
        } else {
            assert(!occurs_at(rest, 0, pattern@)) by {
                if occurs_at(rest, 0, pattern@) {
                    assert(rest.subrange(0, pattern@.len() as int) =~= chars@.subrange(
                        i as int,
                        i + pattern@.len(),
                    ));
                }
            }
            assert(rest.skip(1) =~= chars@.skip(i + 1));
            assert(replace_first_occurrence(rest, pattern@, to@) =~= seq![rest[0]] + replace_first_occurrence(
                rest.skip(1),
                pattern@,
                to@,
            )) by {
                if rest.len() < pattern@.len() {
                    assert(rest =~= seq![rest[0]] + rest.skip(1));
                }
            }
            push_char(&mut out, chars[i]);
            i += 1;
        }
    }
    assert(chars@.skip(i as int).len() == 0);
    assert(out@ =~= replace_first_occurrence(chars@, pattern@, to@));
    out
}

} // verus!
