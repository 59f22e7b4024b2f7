//! The settings that the front-end takes from its environment.

use crate::text::{from_chars, to_chars};
use vstd::prelude::*;

verus! {

/// The address on which the front-end listens for requests: the value of
/// `LEMMY_BB_LISTEN_ADDRESS`, or `127.0.0.1:1244` where that is not set.
pub fn listen_address(configured: Option<String>) -> (address: String)
    ensures
        match configured {
            Some(value) => address == value,
            None => address@ == "127.0.0.1:1244"@,
        },
{
    match configured {
        Some(value) => value,
        None => "127.0.0.1:1244".to_owned(),
    }
}

/// The address at which the backend's interface is reached: the value of
/// `LEMMY_BB_BACKEND`, or `http://localhost:8536` where that is not set.
pub fn lemmy_backend(configured: Option<String>) -> (address: String)
    ensures
        match configured {
            Some(value) => address == value,
            None => address@ == "http://localhost:8536"@,
        },
{
    match configured {
        Some(value) => value,
        None => "http://localhost:8536".to_owned(),
    }
}

/// Whether the backend runs with an increased rate limit, which the search
/// for the latest reply in each thread and community needs: it does where
/// `LEMMY_BB_INCREASED_RATE_LIMIT` is set to anything but the empty string.
pub fn increased_rate_limit(configured: Option<String>) -> (increased: bool)
    ensures
        increased == (configured matches Some(value) && value@.len() > 0),
{
    match configured {
        Some(value) => !value.as_str().is_empty(),
        None => false,
    }
}

/// Whether `at` is the index of the first colon in `address`.
pub open spec fn is_first_colon(address: Seq<char>, at: int) -> bool {
    &&& 0 <= at < address.len()
    &&& address[at] == ':'
    &&& forall|j: int| 0 <= j < at ==> address[j] != ':'
}

/// Splits the address on which the front-end listens into the host and
/// the port: what stands before its first colon, and what stands after it.
/// An address without a colon is none.
pub fn split_listen_address(address: &str) -> (parts: Option<(String, String)>)
    ensures
        match parts {
            Some((host, port)) => exists|at: int|
                #[trigger] is_first_colon(address@, at) && host@ == address@.take(at) && port@
                    == address@.skip(at + 1),
            None => forall|j: int| 0 <= j < address@.len() ==> address@[j] != ':',
        },
{
    let chars = to_chars(address);
    let mut at: usize = 0;
    while at < chars.len() && chars[at] != ':'
        invariant
            at <= chars.len(),
            forall|j: int| 0 <= j < at ==> chars@[j] != ':',
        decreases chars.len() - at,
    {
        at += 1;
    }
    if at == chars.len() {
        return None;
    }
    let mut host: Vec<char> = Vec::new();
    let mut i: usize = 0;
    while i < at
        invariant
            i <= at < chars.len(),
            host@ == chars@.take(i as int),
        decreases at - i,
    {
        host.push(chars[i]);
        assert(host@ =~= chars@.take(i + 1));
        i += 1;
    }
    let mut port: Vec<char> = Vec::new();
    let mut i: usize = at + 1;
    while i < chars.len()
        invariant
            at + 1 <= i <= chars.len(),
            port@ == chars@.subrange(at + 1, i as int),
        decreases chars.len() - i,
    {
        port.push(chars[i]);
        assert(port@ =~= chars@.subrange(at + 1, i + 1));
        i += 1;
    }
    assert(port@ =~= chars@.skip(at + 1));
    assert(is_first_colon(address@, at as int));
    Some((from_chars(&host), from_chars(&port)))
}

/// Whether `c` is one of the digits `0` to `9`.
pub open spec fn is_digit(c: char) -> bool {
    '0' <= c <= '9'
}

/// Whether `s` holds nothing but digits.
pub open spec fn all_digits(s: Seq<char>) -> bool {
    forall|i: int| 0 <= i < s.len() ==> is_digit(#[trigger] s[i])
}

/// The number that the digits of `s` write in decimal.
pub open spec fn digits_value(s: Seq<char>) -> nat
    decreases s.len(),
{
    if s.len() == 0 {
        0
    } else {
        (digits_value(s.drop_last()) * 10 + (s.last() as u32 - '0' as u32)) as nat
    }
}

/// The digits of a port number as it is written: what follows an optional
/// plus sign.
pub open spec fn port_digits(port: Seq<char>) -> Seq<char> {
    if port.len() > 0 && port[0] == '+' {
        port.skip(1)
    } else {
        port
    }
}

/// The port that `port` writes: a number from 0 to 65535 in decimal, which
/// may begin with a plus sign and with zeros; `None` for every other text.
pub open spec fn port_number(port: Seq<char>) -> Option<u16> {
    let digits = port_digits(port);
    if digits.len() > 0 && all_digits(digits) && digits_value(digits) <= u16::MAX {
        Some(digits_value(digits) as u16)
    } else {
        None
    }
}

/// Further digits do not make a number smaller.
proof fn lemma_digits_value_grows(s: Seq<char>, n: int)
    requires
        0 <= n <= s.len(),
        all_digits(s),
    ensures
        digits_value(s.take(n)) <= digits_value(s),
    decreases s.len() - n,
{
    if n < s.len() {
        lemma_digits_value_grows(s, n + 1);
        assert(s.take(n + 1).drop_last() =~= s.take(n));
        assert(s.take(n + 1).last() == s[n]);
        assert(is_digit(s[n]));
    } else {
        assert(s.take(n) =~= s);
    }
}

/// Reads a port number.
pub fn parse_port(port: &str) -> (number: Option<u16>)
    ensures
        number == port_number(port@),
{
    let chars = to_chars(port);
    let start: usize = if chars.len() > 0 && chars[0] == '+' {
        1
    } else {
        0
    };
    let ghost digits = port_digits(port@);
    assert(digits =~= chars@.skip(start as int));
    if start == chars.len() {
        return None;
    }
    let mut value: u32 = 0;
    let mut i: usize = start;
    assert(digits.take(0) =~= Seq::<char>::empty());
    while i < chars.len()
        invariant
            start <= i <= chars.len(),
            digits == chars@.skip(start as int),
            digits == port_digits(port@),
            digits.len() > 0,
            all_digits(digits.take(i - start)),
            value == digits_value(digits.take(i - start)),
            value <= u16::MAX,
        decreases chars.len() - i,
    {
        let c = chars[i];
        let ghost seen = digits.take(i - start);
        let ghost next = digits.take(i - start + 1);
        assert(next.drop_last() =~= seen);
        assert(next.last() == c);
        if !('0' <= c && c <= '9') {
            assert(!all_digits(digits)) by {
                assert(!is_digit(digits[i - start]));
            }
            return None;
        }
        let digit: u32 = c as u32 - '0' as u32;
        value = value * 10 + digit;
        assert(all_digits(next)) by {
            assert forall|j: int| 0 <= j < next.len() implies is_digit(#[trigger] next[j]) by {
                if j < seen.len() {
                    assert(seen[j] == next[j]);
                }
            }
        }
        if value > 65535 {
            proof {
                if all_digits(digits) {
                    lemma_digits_value_grows(digits, i - start + 1);
                }
            }
            return None;
        }
        i += 1;
    }
    assert(digits.take(i - start) =~= digits);
    Some(value as u16)
}

} // verus!
