//! Small helpers on strings, and what it means for one text to occur in another.

use vstd::prelude::*;
use vstd::string::StringExecFns;

verus! {

/// Whether `needle` occurs in `hay` as a contiguous run of characters.
pub open spec fn occurs_in(needle: Seq<char>, hay: Seq<char>) -> bool {
    exists|start: int|
        0 <= start && start + needle.len() <= hay.len() && #[trigger] hay.subrange(
            start,
            start + needle.len(),
        ) == needle
}

/// A text occurs in whatever is written around it.
pub proof fn lemma_occurs_between(before: Seq<char>, needle: Seq<char>, after: Seq<char>)
    ensures
        occurs_in(needle, before + needle + after),
        occurs_in(needle, before + needle),
{
    let start = before.len() as int;
    let hay = before + needle + after;
    assert(hay.subrange(start, start + needle.len()) =~= needle);
    let short = before + needle;
    assert(short.subrange(start, start + needle.len()) =~= needle);
}

/// `first` followed by `second`.
pub fn join(first: &str, second: &str) -> (joined: String)
    ensures
        joined@ == first@ + second@,
{
    let mut joined = String::from_str(first);
    joined.append(second);
    joined
}

/// Whether `text` reads exactly `expected`.
pub fn reads(text: &String, expected: &str) -> (same: bool)
    ensures
        same == (text@ == expected@),
{
    let wanted = String::from_str(expected);
    *text == wanted
}

/// Whether two texts read the same.
pub fn same(first: &str, second: &str) -> (equal: bool)
    ensures
        equal == (first@ == second@),
{
    let left = String::from_str(first);
    let right = String::from_str(second);
    left == right
}

/// The views of the texts of `texts`, in order.
pub open spec fn texts_view(texts: Seq<String>) -> Seq<Seq<char>> {
    Seq::new(texts.len(), |i: int| texts[i]@)
}

/// The view of an optional text.
pub open spec fn optional_text(text: Option<String>) -> Option<Seq<char>> {
    match text {
        Some(t) => Some(t@),
        None => None,
    }
}

/// The view of an optional list of texts.
pub open spec fn optional_texts(texts: Option<Vec<String>>) -> Option<Seq<Seq<char>>> {
    match texts {
        Some(list) => Some(texts_view(list@)),
        None => None,
    }
}

/// The view of a text that may be absent, where there is an answer at all.
pub open spec fn optional_optional_text(text: Option<Option<String>>) -> Option<
    Option<Seq<char>>,
> {
    match text {
        Some(inner) => Some(optional_text(inner)),
        None => None,
    }
}

} // verus!
