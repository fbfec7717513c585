//! Keyword tagging of class labels: which labels name a chicken, and which a
//! predator.

use crate::text::{chars_of, contains, contains_chars, lowered, lowered_chars};
use vstd::prelude::*;

verus! {

/// Whether `label`, with its ASCII letters folded to lower case, contains
/// `keyword`.
pub open spec fn mentions(label: Seq<char>, keyword: Seq<char>) -> bool {
    contains(lowered(label), keyword)
}

/// Whether a label names a chicken.
pub open spec fn is_chicken(label: Seq<char>) -> bool {
    ||| mentions(label, "hen"@)
    ||| mentions(label, "cock"@)
    ||| mentions(label, "chicken"@)
    ||| mentions(label, "rooster"@)
}

/// Whether a label names a predator.
pub open spec fn is_predator(label: Seq<char>) -> bool {
    ||| mentions(label, "fox"@)
    ||| mentions(label, "wolf"@)
    ||| mentions(label, "coyote"@)
    ||| mentions(label, "dog"@)
    ||| mentions(label, "hawk"@)
    ||| mentions(label, "eagle"@)
    ||| mentions(label, "owl"@)
    ||| mentions(label, "snake"@)
}

/// Whether the lower-cased label `folded` contains `keyword`.
fn has_keyword(folded: &Vec<char>, keyword: &str) -> (r: bool)
    ensures
        r == contains(folded@, keyword@),
{
    let needle = chars_of(keyword);
    contains_chars(folded.as_slice(), needle.as_slice())
}

/// Whether `label` names a chicken: case-insensitively, it contains one of
/// "hen", "cock", "chicken", "rooster".
pub fn is_chicken_label(label: &str) -> (r: bool)
    ensures
        r == is_chicken(label@),
{
    let folded = lowered_chars(label);
    has_keyword(&folded, "hen") || has_keyword(&folded, "cock") || has_keyword(&folded, "chicken")
        || has_keyword(&folded, "rooster")
}

/// Whether `label` names a predator: case-insensitively, it contains one of
/// "fox", "wolf", "coyote", "dog", "hawk", "eagle", "owl", "snake".
pub fn is_predator_label(label: &str) -> (r: bool)
    ensures
        r == is_predator(label@),
{
    let folded = lowered_chars(label);
    has_keyword(&folded, "fox") || has_keyword(&folded, "wolf") || has_keyword(&folded, "coyote")
        || has_keyword(&folded, "dog") || has_keyword(&folded, "hawk") || has_keyword(
        &folded,
        "eagle",
    ) || has_keyword(&folded, "owl") || has_keyword(&folded, "snake")
}

/// The two tags are independent: each is decided by its own keywords alone,
/// so a label that mentions one keyword of each kind carries both.
pub proof fn tags_are_independent(label: Seq<char>, chicken_word: Seq<char>, predator_word: Seq<char>)
    requires
        mentions(label, chicken_word),
        mentions(label, predator_word),
        chicken_word == "hen"@ || chicken_word == "cock"@ || chicken_word == "chicken"@
            || chicken_word == "rooster"@,
        predator_word == "fox"@ || predator_word == "wolf"@ || predator_word == "coyote"@
            || predator_word == "dog"@ || predator_word == "hawk"@ || predator_word == "eagle"@
            || predator_word == "owl"@ || predator_word == "snake"@,
    ensures
        is_chicken(label) && is_predator(label),
{
}

/// The empty label carries neither tag.
pub proof fn empty_label_has_no_tag()
    ensures
        !is_chicken(Seq::<char>::empty()),
        !is_predator(Seq::<char>::empty()),
{
    reveal_strlit("hen");
    reveal_strlit("cock");
    reveal_strlit("chicken");
    reveal_strlit("rooster");
    reveal_strlit("fox");
    reveal_strlit("wolf");
    reveal_strlit("coyote");
    reveal_strlit("dog");
    reveal_strlit("hawk");
    reveal_strlit("eagle");
    reveal_strlit("owl");
    reveal_strlit("snake");
    assert(lowered(Seq::<char>::empty()).len() == 0);
}

/// Tagging ignores the case of ASCII letters: two labels that fold to the
/// same lower-case text carry the same tags.
pub proof fn tags_ignore_case(a: Seq<char>, b: Seq<char>)
    requires
        lowered(a) == lowered(b),
    ensures
        is_chicken(a) == is_chicken(b),
        is_predator(a) == is_predator(b),
{
}

} // verus!
