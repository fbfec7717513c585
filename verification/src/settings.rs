//! Settings as they come from the environment: texts that may be absent, read
//! as numbers and switches.

use crate::text::{chars_of, same_text};
use vstd::prelude::*;
use vstd::string::StringExecFns;

verus! {

/// Whether `c` is one of the digits 0 to 9.
pub open spec fn is_digit(c: char) -> bool {
    '0' <= c <= '9'
}

/// Whether `s` consists of digits.
pub open spec fn all_digits(s: Seq<char>) -> bool {
    forall|i: int| 0 <= i < s.len() ==> is_digit(#[trigger] s[i])
}

/// The number that the digits `s` write in decimal.
pub open spec fn digits_value(s: Seq<char>) -> nat
    decreases s.len(),
{
    if s.len() == 0 {
        0
    } else {
        10 * digits_value(s.drop_last()) + (s.last() as nat - '0' as nat) as nat
    }
}

/// `s` without a plus sign at its start.
pub open spec fn unsigned_body(s: Seq<char>) -> Seq<char> {
    if s.len() > 0 && s[0] == '+' {
        s.skip(1)
    } else {
        s
    }
}

/// The number that `s` writes, where it writes one that is at most `max`:
/// decimal digits, at least one, with or without a plus sign before them.
pub open spec fn parsed_unsigned(s: Seq<char>, max: nat) -> Option<nat> {
    let body = unsigned_body(s);
    if body.len() > 0 && all_digits(body) && digits_value(body) <= max {
        Some(digits_value(body))
    } else {
        None
    }
}

proof fn lemma_digits_grow(s: Seq<char>, k: int)
    requires
        0 <= k <= s.len(),
        all_digits(s),
    ensures
        digits_value(s.take(k)) <= digits_value(s),
    decreases s.len() - k,
{
    if k < s.len() {
        let front = s.drop_last();
        assert(all_digits(front)) by {
            assert forall|i: int| 0 <= i < front.len() implies is_digit(#[trigger] front[i]) by {
                assert(front[i] == s[i]);
            }
        }
        lemma_digits_grow(front, k);
        assert(front.take(k) =~= s.take(k));
        assert(is_digit(s[s.len() - 1]));
    } else {
        assert(s.take(k) =~= s);
    }
}

/// Reads a number that is at most `max`.
pub fn parse_unsigned(s: &str, max: u64) -> (r: Option<u64>)
    ensures
        r is Some <==> parsed_unsigned(s@, max as nat) is Some,
        r matches Some(n) ==> parsed_unsigned(s@, max as nat) == Some(n as nat),
{
    let chars = chars_of(s);
    let start: usize = if chars.len() > 0 && chars[0] == '+' {
        1
    } else {
        0
    };
    let ghost body = unsigned_body(s@);
    assert(body =~= chars@.skip(start as int));
    if start == chars.len() {
        return None;
    }
    let mut value: u64 = 0;
    let mut i: usize = start;
    assert(body.take(0) =~= Seq::<char>::empty());
    while i < chars.len()
        invariant
            start <= i <= chars.len(),
            body == chars@.skip(start as int),
            body == unsigned_body(s@),
            body.len() > 0,
            all_digits(body.take(i - start)),
            value == digits_value(body.take(i - start)),
            value <= max,
        decreases chars.len() - i,
    {
        let c = chars[i];
        let ghost seen = body.take(i - start);
        let ghost next = body.take(i - start + 1);
        assert(next.drop_last() =~= seen);
        assert(next.last() == c);
        assert(body[i - start] == c);
        if !('0' <= c && c <= '9') {
            assert(!is_digit(body[i - start]));
            return None;
        }
        assert(all_digits(next)) by {
            assert forall|j: int| 0 <= j < next.len() implies is_digit(#[trigger] next[j]) by {
                if j < seen.len() {
                    assert(seen[j] == next[j]);
                }
            }
        }
        let digit: u64 = (c as u8 - 48) as u64;
        if digit > max || value > (max - digit) / 10 {
            proof {
                assert(digits_value(next) > max);
                if all_digits(body) {
                    lemma_digits_grow(body, i - start + 1);
                }
            }
            return None;
        }
        value = value * 10 + digit;
        i += 1;
    }
    assert(body.take(i - start) =~= body);
    Some(value)
}

/// The complaint about a setting whose value cannot be read.
pub open spec fn invalid_value(name: Seq<char>, value: Seq<char>) -> Seq<char> {
    "invalid value for "@ + name + ": "@ + value
}

fn complain(name: &str, value: &str) -> (r: String)
    ensures
        r@ == invalid_value(name@, value@),
{
    let mut message = "invalid value for ".to_owned();
    message.append(name);
    message.append(": ");
    message.append(value);
    message
}

/// What a setting for a number up to `max` gives: the default where it is
/// absent, its number where it writes one, else a complaint.
pub open spec fn number_setting(
    name: Seq<char>,
    value: Option<Seq<char>>,
    default: nat,
    max: nat,
) -> Result<nat, Seq<char>> {
    match value {
        None => Ok(default),
        Some(text) => match parsed_unsigned(text, max) {
            Some(n) => Ok(n),
            None => Err(invalid_value(name, text)),
        },
    }
}

/// Reads the setting `name` as a number from 0 to 255.
pub fn parse_u8_setting(name: &str, value: Option<&str>, default: u8) -> (r: Result<u8, String>)
    ensures
        match (r, number_setting(name@, option_view(value), default as nat, 255)) {
            (Ok(n), Ok(m)) => n == m,
            (Err(a), Err(b)) => a@ == b,
            _ => false,
        },
{
    match value {
        None => Ok(default),
        Some(text) => match parse_unsigned(text, 255) {
            Some(n) => Ok(n as u8),
            None => Err(complain(name, text)),
        },
    }
}

/// Reads the setting `name` as a number from 0 to 2^64 - 1.
pub fn parse_u64_setting(name: &str, value: Option<&str>, default: u64) -> (r: Result<u64, String>)
    ensures
        match (r, number_setting(name@, option_view(value), default as nat, u64::MAX as nat)) {
            (Ok(n), Ok(m)) => n == m,
            (Err(a), Err(b)) => a@ == b,
            _ => false,
        },
{
    match value {
        None => Ok(default),
        Some(text) => match parse_unsigned(text, u64::MAX) {
            Some(n) => Ok(n),
            None => Err(complain(name, text)),
        },
    }
}

/// The text of a setting, where it is present.
pub open spec fn option_view(value: Option<&str>) -> Option<Seq<char>> {
    match value {
        Some(text) => Some(text@),
        None => None,
    }
}

/// Whether `text` switches something on.
pub open spec fn says_yes(text: Seq<char>) -> bool {
    text == "1"@ || text == "true"@ || text == "TRUE"@ || text == "yes"@ || text == "on"@
}

/// Whether `text` switches something off.
pub open spec fn says_no(text: Seq<char>) -> bool {
    text == "0"@ || text == "false"@ || text == "FALSE"@ || text == "no"@ || text == "off"@
}

/// What a setting for a switch gives: the default where it is absent; on
/// for `1`, `true`, `TRUE`, `yes`, `on`; off for `0`, `false`, `FALSE`, `no`,
/// `off`; else a complaint.
pub open spec fn switch_setting(name: Seq<char>, value: Option<Seq<char>>, default: bool) -> Result<
    bool,
    Seq<char>,
> {
    match value {
        None => Ok(default),
        Some(text) => if says_yes(text) {
            Ok(true)
        } else if says_no(text) {
            Ok(false)
        } else {
            Err(invalid_value(name, text))
        },
    }
}

/// Reads the setting `name` as a switch.
pub fn parse_bool_setting(name: &str, value: Option<&str>, default: bool) -> (r: Result<bool, String>)
    ensures
        match (r, switch_setting(name@, option_view(value), default)) {
            (Ok(n), Ok(m)) => n == m,
            (Err(a), Err(b)) => a@ == b,
            _ => false,
        },
{
    match value {
        None => Ok(default),
        Some(text) => {
            if same_text(text, "1") || same_text(text, "true") || same_text(text, "TRUE")
                || same_text(text, "yes") || same_text(text, "on") {
                Ok(true)
            } else if same_text(text, "0") || same_text(text, "false") || same_text(text, "FALSE")
                || same_text(text, "no") || same_text(text, "off") {
                Ok(false)
            } else {
                Err(complain(name, text))
            }
        },
    }
}

} // verus!
