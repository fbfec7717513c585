//! The label table: class names read from a text, one per line.

use crate::text::{chars_of, string_of};
use vstd::prelude::*;

verus! {

/// Whether `c` has the Unicode property White_Space.
pub open spec fn is_white_space(c: char) -> bool {
    let n = c as u32;
    ||| 0x09 <= n <= 0x0d
    ||| n == 0x20
    ||| n == 0x85
    ||| n == 0xa0
    ||| n == 0x1680
    ||| 0x2000 <= n <= 0x200a
    ||| n == 0x2028
    ||| n == 0x2029
    ||| n == 0x202f
    ||| n == 0x205f
    ||| n == 0x3000
}

/// `s` without its leading white space.
pub open spec fn trim_start(s: Seq<char>) -> Seq<char>
    decreases s.len(),
{
    if s.len() > 0 && is_white_space(s[0]) {
        trim_start(s.drop_first())
    } else {
        s
    }
}

/// `s` without its trailing white space.
pub open spec fn trim_end(s: Seq<char>) -> Seq<char>
    decreases s.len(),
{
    if s.len() > 0 && is_white_space(s.last()) {
        trim_end(s.drop_last())
    } else {
        s
    }
}

/// `s` without the white space around it.
pub open spec fn trimmed(s: Seq<char>) -> Seq<char> {
    trim_end(trim_start(s))
}

/// The length of the first line of `s`: the position of its first line feed,
/// or the length of `s` where it has none.
pub open spec fn line_end(s: Seq<char>) -> nat
    decreases s.len(),
{
    if s.len() == 0 || s[0] == '\n' {
        0
    } else {
        1 + line_end(s.drop_first())
    }
}

/// What follows the first line of `s` and its line feed.
pub open spec fn after_line(s: Seq<char>) -> Seq<char> {
    if line_end(s) < s.len() {
        s.skip(line_end(s) as int + 1)
    } else {
        Seq::empty()
    }
}

/// The labels that a text holds: its lines in order, each without the white
/// space around it, those that are then empty left out.
pub open spec fn label_table(text: Seq<char>) -> Seq<Seq<char>>
    decreases text.len(),
{
    if text.len() == 0 {
        Seq::empty()
    } else {
        let label = trimmed(text.take(line_end(text) as int));
        let rest = label_table(after_line(text));
        if label.len() > 0 {
            seq![label] + rest
        } else {
            rest
        }
    }
}

/// The texts of a vector of strings.
pub open spec fn label_views(labels: Seq<String>) -> Seq<Seq<char>> {
    Seq::new(labels.len(), |i: int| labels[i]@)
}

pub fn is_whitespace(c: char) -> (r: bool)
    ensures
        r == is_white_space(c),
{
    let n: u32 = c as u32;
    (0x09 <= n && n <= 0x0d) || n == 0x20 || n == 0x85 || n == 0xa0 || n == 0x1680 || (0x2000 <= n
        && n <= 0x200a) || n == 0x2028 || n == 0x2029 || n == 0x202f || n == 0x205f || n == 0x3000
}

proof fn lemma_line_end(s: Seq<char>, n: int)
    requires
        0 <= n <= s.len(),
        forall|j: int| 0 <= j < n ==> s[j] != '\n',
        n == s.len() || s[n] == '\n',
    ensures
        line_end(s) == n,
    decreases n,
{
    if n > 0 {
        lemma_line_end(s.drop_first(), n - 1);
    }
}

proof fn lemma_trim_start(s: Seq<char>, k: int)
    requires
        0 <= k <= s.len(),
        forall|j: int| 0 <= j < k ==> is_white_space(s[j]),
        k == s.len() || !is_white_space(s[k]),
    ensures
        trim_start(s) == s.skip(k),
    decreases k,
{
    if k > 0 {
        lemma_trim_start(s.drop_first(), k - 1);
        assert(s.drop_first().skip(k - 1) =~= s.skip(k));
    } else {
        assert(s.skip(0) =~= s);
    }
}

proof fn lemma_trim_end(s: Seq<char>, k: int)
    requires
        0 <= k <= s.len(),
        forall|j: int| k <= j < s.len() ==> is_white_space(s[j]),
        k == 0 || !is_white_space(s[k - 1]),
    ensures
        trim_end(s) == s.take(k),
    decreases s.len() - k,
{
    if k < s.len() {
        lemma_trim_end(s.drop_last(), k);
        assert(s.drop_last().take(k) =~= s.take(k));
    } else {
        assert(s.take(k) =~= s);
    }
}

/// What is left of a text after trimming neither starts nor ends with white
/// space.
pub proof fn trimmed_has_no_white_space_around(s: Seq<char>)
    ensures
        trimmed(s).len() > 0 ==> !is_white_space(trimmed(s)[0]) && !is_white_space(
            trimmed(s).last(),
        ),
{
    lemma_trim_start_shape(s);
    lemma_trim_end_shape(trim_start(s));
}

proof fn lemma_trim_start_shape(s: Seq<char>)
    ensures
        trim_start(s).len() > 0 ==> !is_white_space(trim_start(s)[0]),
    decreases s.len(),
{
    if s.len() > 0 && is_white_space(s[0]) {
        lemma_trim_start_shape(s.drop_first());
    }
}

proof fn lemma_trim_end_shape(s: Seq<char>)
    ensures
        trim_end(s).len() <= s.len(),
        trim_end(s) == s.take(trim_end(s).len() as int),
        trim_end(s).len() > 0 ==> !is_white_space(trim_end(s).last()),
    decreases s.len(),
{
    if s.len() > 0 && is_white_space(s.last()) {
        lemma_trim_end_shape(s.drop_last());
        assert(s.drop_last().take(trim_end(s).len() as int) =~= s.take(trim_end(s).len() as int));
    } else {
        assert(s.take(s.len() as int) =~= s);
    }
}

proof fn lemma_trim_start_push(s: Seq<char>, c: char)
    requires
        is_white_space(c),
    ensures
        trim_start(s.push(c)) == if trim_start(s).len() > 0 {
            trim_start(s).push(c)
        } else {
            Seq::<char>::empty()
        },
    decreases s.len(),
{
    let longer = s.push(c);
    if s.len() > 0 && is_white_space(s[0]) {
        lemma_trim_start_push(s.drop_first(), c);
        assert(longer[0] == s[0]);
        assert(longer.drop_first() =~= s.drop_first().push(c));
    } else if s.len() == 0 {
        assert(longer[0] == c);
        assert(longer.drop_first() =~= Seq::<char>::empty());
        assert(trim_start(longer.drop_first()) =~= Seq::<char>::empty());
    } else {
        assert(longer[0] == s[0]);
    }
}

/// White space at the end of a line makes no difference to its label: a
/// line that ends in a carriage return gives the label of the line without
/// it.
pub proof fn trailing_white_space_is_dropped(line: Seq<char>, c: char)
    requires
        is_white_space(c),
    ensures
        trimmed(line.push(c)) == trimmed(line),
{
    lemma_trim_start_push(line, c);
    let start = trim_start(line);
    if start.len() > 0 {
        assert(start.push(c).drop_last() =~= start);
    } else {
        lemma_trim_end_shape(start);
    }
}

/// Every label of a table has at least one character, and no white space at
/// its start or end.
pub proof fn labels_are_trimmed(text: Seq<char>, i: int)
    requires
        0 <= i < label_table(text).len(),
    ensures
        label_table(text)[i].len() > 0,
        !is_white_space(label_table(text)[i][0]),
        !is_white_space(label_table(text)[i].last()),
    decreases text.len(),
{
    if text.len() > 0 {
        let label = trimmed(text.take(line_end(text) as int));
        trimmed_has_no_white_space_around(text.take(line_end(text) as int));
        if label.len() > 0 {
            if i > 0 {
                labels_are_trimmed(after_line(text), i - 1);
            }
        } else {
            labels_are_trimmed(after_line(text), i);
        }
    }
}

/// A text without a line that holds more than white space has no labels.
pub proof fn blank_text_has_no_labels(text: Seq<char>)
    requires
        forall|j: int| 0 <= j < text.len() ==> is_white_space(#[trigger] text[j]),
    ensures
        label_table(text).len() == 0,
    decreases text.len(),
{
    if text.len() > 0 {
        let end = line_end(text) as int;
        lemma_line_end_bound(text);
        let line = text.take(end);
        lemma_trim_start(line, line.len() as int);
        assert(line.skip(line.len() as int) =~= Seq::<char>::empty());
        blank_text_has_no_labels(after_line(text));
    }
}

proof fn lemma_line_end_bound(s: Seq<char>)
    ensures
        line_end(s) <= s.len(),
    decreases s.len(),
{
    if s.len() > 0 && s[0] != '\n' {
        lemma_line_end_bound(s.drop_first());
    }
}

/// The bounds of `chars[from..to]` without the white space around it.
pub fn trim_range(chars: &[char], from: usize, to: usize) -> (r: (usize, usize))
    requires
        from <= to <= chars.len(),
    ensures
        from <= r.0 <= r.1 <= to,
        chars@.subrange(r.0 as int, r.1 as int) == trimmed(chars@.subrange(from as int, to as int)),
{
    let ghost line = chars@.subrange(from as int, to as int);
    let mut a: usize = from;
    while a < to && is_whitespace(chars[a])
        invariant
            from <= a <= to <= chars.len(),
            forall|j: int| from <= j < a ==> is_white_space(chars@[j]),
        decreases to - a,
    {
        a += 1;
    }
    let mut b: usize = to;
    while b > a && is_whitespace(chars[b - 1])
        invariant
            a <= b <= to <= chars.len(),
            forall|j: int| b <= j < to ==> is_white_space(chars@[j]),
        decreases b,
    {
        b -= 1;
    }
    proof {
        lemma_trim_start(line, a - from);
        let rest = line.skip(a - from);
        assert(rest =~= chars@.subrange(a as int, to as int));
        lemma_trim_end(rest, b - a);
        assert(rest.take(b - a) =~= chars@.subrange(a as int, b as int));
    }
    (a, b)
}

/// Reads the labels out of a text: one per line, white space around each
/// dropped, empty lines skipped, order kept.
pub fn parse_labels(content: &str) -> (labels: Vec<String>)
    ensures
        label_views(labels@) == label_table(content@),
{
    let chars = chars_of(content);
    let mut labels: Vec<String> = Vec::new();
    let mut start: usize = 0;
    assert(chars@.skip(0) =~= chars@);
    assert(label_views(labels@) =~= Seq::<Seq<char>>::empty());
    assert(Seq::<Seq<char>>::empty() + label_table(chars@) =~= label_table(chars@));
    while start < chars.len()
        invariant
            start <= chars.len(),
            chars@ == content@,
            label_views(labels@) + label_table(chars@.skip(start as int)) == label_table(chars@),
        decreases chars.len() - start,
    {
        let ghost text = chars@.skip(start as int);
        let ghost before = label_views(labels@);
        let mut end: usize = start;
        while end < chars.len() && chars[end] != '\n'
            invariant
                start <= end <= chars.len(),
                forall|j: int| start <= j < end ==> chars@[j] != '\n',
            decreases chars.len() - end,
        {
            end += 1;
        }
        proof {
            lemma_line_end(text, end - start);
            assert(text.take(end - start) =~= chars@.subrange(start as int, end as int));
        }
        let (a, b) = trim_range(chars.as_slice(), start, end);
        if a < b {
            let label = string_of(chars.as_slice(), a, b);
            labels.push(label);
            assert(label_views(labels@) =~= before + seq![label@]);
        }
        let next: usize = if end < chars.len() {
            end + 1
        } else {
            end
        };
        proof {
            let rest = after_line(text);
            assert(rest =~= chars@.skip(next as int));
            let label = trimmed(text.take(line_end(text) as int));
            if label.len() > 0 {
                assert((before + seq![label]) + label_table(rest) =~= before + (seq![label]
                    + label_table(rest)));
            }
        }
        start = next;
    }
    assert(label_table(chars@.skip(start as int)) =~= Seq::<Seq<char>>::empty());
    assert(label_views(labels@) + Seq::<Seq<char>>::empty() =~= label_views(labels@));
    labels
}

/// Loads the label table from the content of a label resource, where one was
/// given and could be read. Without a content the table is empty.
pub fn load_labels(content: Option<&str>) -> (labels: Vec<String>)
    ensures
        label_views(labels@) == match content {
            Some(text) => label_table(text@),
            None => Seq::<Seq<char>>::empty(),
        },
{
    match content {
        Some(text) => parse_labels(text),
        None => {
            let labels: Vec<String> = Vec::new();
            assert(label_views(labels@) =~= Seq::<Seq<char>>::empty());
            labels
        },
    }
}

} // verus!
