//! Text as sequences of characters: conversion between strings and character
//! vectors, ASCII case folding, white space, substring search and decimal
//! numerals.

use vstd::prelude::*;
use vstd::string::StringExecFns;

verus! {

/// `String::push` appends one character to the end of the string.
pub assume_specification[ String::push ](s: &mut String, c: char)
    ensures
        final(s)@ == old(s)@.push(c),
;

/// The characters of `s`, in order.
pub fn chars_of(s: &str) -> (r: Vec<char>)
    ensures
        r@ == s@,
{
    let mut out: Vec<char> = Vec::new();
    for c in it: s.chars()
        invariant
            it.seq() == s@,
            out@ == s@.take(it.index() as int),
    {
        out.push(c);
        assert(s@.take(it.index() + 1) =~= s@.take(it.index() as int).push(c));
    }
    assert(s@.take(s@.len() as int) =~= s@);
    out
}

/// Appends `chars[from..to]` to `out`.
pub fn push_chars(out: &mut String, chars: &[char], from: usize, to: usize)
    requires
        from <= to <= chars.len(),
    ensures
        final(out)@ == old(out)@ + chars@.subrange(from as int, to as int),
{
    let mut i: usize = from;
    assert(chars@.subrange(from as int, from as int) =~= Seq::<char>::empty());
    assert(out@ + Seq::<char>::empty() =~= out@);
    while i < to
        invariant
            from <= i <= to <= chars.len(),
            out@ == old(out)@ + chars@.subrange(from as int, i as int),
        decreases to - i,
    {
        out.push(chars[i]);
        assert(chars@.subrange(from as int, i + 1) =~= chars@.subrange(from as int, i as int).push(
            chars@[i as int],
        ));
        assert(old(out)@ + chars@.subrange(from as int, i + 1) =~= (old(out)@ + chars@.subrange(
            from as int,
            i as int,
        )).push(chars@[i as int]));
        i += 1;
    }
}

/// The string made of `chars[from..to]`.
pub fn string_of(chars: &[char], from: usize, to: usize) -> (r: String)
    requires
        from <= to <= chars.len(),
    ensures
        r@ == chars@.subrange(from as int, to as int),
{
    let mut out = String::new();
    push_chars(&mut out, chars, from, to);
    assert(Seq::<char>::empty() + chars@.subrange(from as int, to as int) =~= chars@.subrange(
        from as int,
        to as int,
    ));
    out
}

/// `c` with an ASCII capital letter replaced by its small letter.
pub open spec fn ascii_lower(c: char) -> char {
    if 'A' <= c <= 'Z' {
        (c as u8 + 32) as char
    } else {
        c
    }
}

/// `s` with every ASCII capital letter replaced by its small letter.
pub open spec fn lowered(s: Seq<char>) -> Seq<char> {
    Seq::new(s.len(), |i: int| ascii_lower(s[i]))
}

pub fn lower_char(c: char) -> (r: char)
    ensures
        r == ascii_lower(c),
{
    if 'A' <= c && c <= 'Z' {
        let code: u8 = c as u8;
        (code + 32) as char
    } else {
        c
    }
}

/// The characters of `s`, each folded to lower case where it is an ASCII letter.
pub fn lowered_chars(s: &str) -> (r: Vec<char>)
    ensures
        r@ == lowered(s@),
{
    let chars = chars_of(s);
    let mut out: Vec<char> = Vec::new();
    let mut i: usize = 0;
    while i < chars.len()
        invariant
            i <= chars.len(),
            chars@ == s@,
            out@.len() == i,
            forall|j: int| 0 <= j < i ==> out@[j] == ascii_lower(s@[j]),
        decreases chars.len() - i,
    {
        out.push(lower_char(chars[i]));
        i += 1;
    }
    assert(out@ =~= lowered(s@));
    out
}

/// Whether `needle` stands in `hay` starting at position `at`.
pub open spec fn occurs_at(hay: Seq<char>, needle: Seq<char>, at: int) -> bool {
    0 <= at && at + needle.len() <= hay.len() && hay.subrange(at, at + needle.len()) == needle
}

/// Whether `needle` stands somewhere in `hay` as a contiguous run.
pub open spec fn contains(hay: Seq<char>, needle: Seq<char>) -> bool {
    exists|at: int| occurs_at(hay, needle, at)
}

/// Whether `needle` stands in `hay` at `at`.
pub fn matches_at(hay: &[char], needle: &[char], at: usize) -> (r: bool)
    requires
        at + needle.len() <= hay.len(),
    ensures
        r == occurs_at(hay@, needle@, at as int),
{
    let mut k: usize = 0;
    while k < needle.len()
        invariant
            k <= needle.len(),
            at + needle.len() <= hay.len(),
            forall|j: int| 0 <= j < k ==> hay@[at + j] == needle@[j],
        decreases needle.len() - k,
    {
        if hay[at + k] != needle[k] {
            assert(hay@.subrange(at as int, at + needle.len())[k as int] != needle@[k as int]);
            return false;
        }
        k += 1;
    }
    assert(hay@.subrange(at as int, at + needle.len()) =~= needle@);
    true
}

/// Whether `needle` stands somewhere in `hay`.
pub fn contains_chars(hay: &[char], needle: &[char]) -> (r: bool)
    ensures
        r == contains(hay@, needle@),
{
    if needle.len() > hay.len() {
        return false;
    }
    let last: usize = hay.len() - needle.len();
    let mut at: usize = 0;
    loop
        invariant
            at <= last,
            last == hay.len() - needle.len(),
            forall|j: int| 0 <= j < at ==> !occurs_at(hay@, needle@, j),
        decreases last - at,
    {
        if matches_at(hay, needle, at) {
            return true;
        }
        if at == last {
            return false;
        }
        at += 1;
    }
}

/// The character of a decimal digit.
pub open spec fn digit_char(d: int) -> char {
    (d + 48) as u8 as char
}

/// The decimal numeral of `n`, without leading zeros.
pub open spec fn decimal(n: nat) -> Seq<char>
    decreases n,
{
    if n < 10 {
        seq![digit_char(n as int)]
    } else {
        decimal(n / 10).push(digit_char((n % 10) as int))
    }
}

/// Appends the decimal numeral of `n` to `out`.
pub fn push_decimal(out: &mut String, n: u128)
    ensures
        final(out)@ == old(out)@ + decimal(n as nat),
    decreases n,
{
    if n >= 10 {
        push_decimal(out, n / 10);
    }
    let digit: u8 = (n % 10) as u8;
    out.push((digit + 48) as char);
    proof {
        if n >= 10 {
            assert(old(out)@ + decimal(n as nat) =~= (old(out)@ + decimal((n / 10) as nat)).push(
                digit_char((n % 10) as int),
            ));
        } else {
            assert(old(out)@ + decimal(n as nat) =~= old(out)@.push(digit_char(n as int)));
        }
    }
}

/// The decimal numeral of `n`.
pub fn decimal_string(n: u128) -> (r: String)
    ensures
        r@ == decimal(n as nat),
{
    let mut out = String::new();
    push_decimal(&mut out, n);
    assert(Seq::<char>::empty() + decimal(n as nat) =~= decimal(n as nat));
    out
}

/// Whether two texts hold the same characters.
pub fn same_text(a: &str, b: &str) -> (r: bool)
    ensures
        r == (a@ == b@),
{
    let left = chars_of(a);
    let right = chars_of(b);
    if left.len() != right.len() {
        return false;
    }
    let mut i: usize = 0;
    while i < left.len()
        invariant
            i <= left.len(),
            left.len() == right.len(),
            left@ == a@,
            right@ == b@,
            forall|j: int| 0 <= j < i ==> left@[j] == right@[j],
        decreases left.len() - i,
    {
        if left[i] != right[i] {
            return false;
        }
        i += 1;
    }
    assert(left@ =~= right@);
    true
}

/// The first `n` characters of `s`, or all of `s` where it is shorter.
pub open spec fn prefix(s: Seq<char>, n: nat) -> Seq<char> {
    if s.len() <= n {
        s
    } else {
        s.take(n as int)
    }
}

/// A key as it may be shown: its first four characters, then three stars.
pub open spec fn redacted(key: Seq<char>) -> Seq<char> {
    prefix(key, 4) + "***"@
}

/// A key as it may be shown in a log line: its first four characters, then
/// three stars.
pub fn redact_key(key: &str) -> (r: String)
    ensures
        r@ == redacted(key@),
{
    let chars = chars_of(key);
    let shown: usize = if chars.len() <= 4 {
        chars.len()
    } else {
        4
    };
    let mut out = string_of(chars.as_slice(), 0, shown);
    assert(chars@.subrange(0, shown as int) =~= prefix(key@, 4));
    out.append("***");
    out
}

/// `s` without the run of `c` at its end.
pub open spec fn without_trailing(s: Seq<char>, c: char) -> Seq<char>
    decreases s.len(),
{
    if s.len() > 0 && s.last() == c {
        without_trailing(s.drop_last(), c)
    } else {
        s
    }
}

proof fn lemma_without_trailing(s: Seq<char>, c: char, k: int)
    requires
        0 <= k <= s.len(),
        forall|j: int| k <= j < s.len() ==> s[j] == c,
        k == 0 || s[k - 1] != c,
    ensures
        without_trailing(s, c) == s.take(k),
    decreases s.len() - k,
{
    if k < s.len() {
        lemma_without_trailing(s.drop_last(), c, k);
        assert(s.drop_last().take(k) =~= s.take(k));
    } else {
        assert(s.take(k) =~= s);
    }
}

/// The address of `path` under the base address `base`: the base without
/// the slashes at its end, a slash, and the path.
pub open spec fn joined_url(base: Seq<char>, path: Seq<char>) -> Seq<char> {
    without_trailing(base, '/') + seq!['/'] + path
}

/// The address of `path` under the base address `base`.
pub fn endpoint_url(base: &str, path: &str) -> (r: String)
    ensures
        r@ == joined_url(base@, path@),
{
    let chars = chars_of(base);
    let mut end: usize = chars.len();
    while end > 0 && chars[end - 1] == '/'
        invariant
            end <= chars.len(),
            forall|j: int| end <= j < chars.len() ==> chars@[j] == '/',
        decreases end,
    {
        end -= 1;
    }
    proof {
        lemma_without_trailing(chars@, '/', end as int);
    }
    let mut out = string_of(chars.as_slice(), 0, end);
    out.push('/');
    out.append(path);
    out
}

/// `with` before every character of `s` and after the last.
pub open spec fn interleaved(s: Seq<char>, with: Seq<char>) -> Seq<char>
    decreases s.len(),
{
    if s.len() == 0 {
        with
    } else {
        with + seq![s[0]] + interleaved(s.skip(1), with)
    }
}

/// `hay` with every occurrence of `needle` replaced by `with`, the
/// occurrences taken from left to right and not overlapping. The empty
/// needle occurs before every character and at the end.
pub open spec fn replaced(hay: Seq<char>, needle: Seq<char>, with: Seq<char>) -> Seq<char>
    decreases hay.len(),
{
    if needle.len() == 0 {
        interleaved(hay, with)
    } else if hay.len() < needle.len() {
        hay
    } else if occurs_at(hay, needle, 0) {
        with + replaced(hay.skip(needle.len() as int), needle, with)
    } else {
        seq![hay[0]] + replaced(hay.skip(1), needle, with)
    }
}

fn interleave(text: &Vec<char>, with: &str) -> (r: String)
    ensures
        r@ == interleaved(text@, with@),
{
    let mut out = String::new();
    let mut at: usize = 0;
    assert(text@.skip(0) =~= text@);
    assert(Seq::<char>::empty() + interleaved(text@, with@) =~= interleaved(text@, with@));
    while at < text.len()
        invariant
            at <= text.len(),
            out@ + interleaved(text@.skip(at as int), with@) == interleaved(text@, with@),
        decreases text.len() - at,
    {
        let ghost rest = text@.skip(at as int);
        let ghost before = out@;
        out.append(with);
        out.push(text[at]);
        at += 1;
        assert(rest.skip(1) =~= text@.skip(at as int));
        assert((before + with@).push(rest[0]) + interleaved(text@.skip(at as int), with@) =~= before
            + (with@ + seq![rest[0]] + interleaved(text@.skip(at as int), with@)));
    }
    out.append(with);
    out
}

/// `hay` with every occurrence of `needle` replaced by `with`.
pub fn replace_all(hay: &str, needle: &str, with: &str) -> (r: String)
    ensures
        r@ == replaced(hay@, needle@, with@),
{
    let text = chars_of(hay);
    let word = chars_of(needle);
    if word.len() == 0 {
        return interleave(&text, with);
    }
    let mut out = String::new();
    let mut at: usize = 0;
    assert(text@.skip(0) =~= text@);
    assert(Seq::<char>::empty() + replaced(text@, word@, with@) =~= replaced(text@, word@, with@));
    while text.len() - at >= word.len()
        invariant
            at <= text.len(),
            word@.len() > 0,
            word@ == needle@,
            out@ + replaced(text@.skip(at as int), word@, with@) == replaced(text@, word@, with@),
        decreases text.len() - at,
    {
        let ghost rest = text@.skip(at as int);
        let ghost before = out@;
        assert(rest.subrange(0, word@.len() as int) =~= text@.subrange(at as int, at + word@.len()));
        if matches_at(text.as_slice(), word.as_slice(), at) {
            out.append(with);
            at += word.len();
            assert(rest.skip(word@.len() as int) =~= text@.skip(at as int));
            assert((before + with@) + replaced(text@.skip(at as int), word@, with@) =~= before + (
            with@ + replaced(text@.skip(at as int), word@, with@)));
        } else {
            out.push(text[at]);
            at += 1;
            assert(rest.skip(1) =~= text@.skip(at as int));
            assert(before.push(rest[0]) + replaced(text@.skip(at as int), word@, with@) =~= before
                + (seq![rest[0]] + replaced(text@.skip(at as int), word@, with@)));
        }
    }
    push_chars(&mut out, text.as_slice(), at, text.len());
    assert(text@.subrange(at as int, text.len() as int) =~= text@.skip(at as int));
    out
}

} // verus!
