//! Comparing, searching and ordering texts.

use vstd::prelude::*;

verus! {

/// Whether `needle` occurs in `haystack` as a run of consecutive characters.
/// The empty text occurs in every text.
pub open spec fn is_substring(needle: Seq<char>, haystack: Seq<char>) -> bool {
    exists|start: int|
        0 <= start && start + needle.len() <= haystack.len() && #[trigger] haystack.subrange(
            start,
            start + needle.len(),
        ) == needle
}

/// Whether `left` comes before `right`, or is the same, in the order of a
/// dictionary whose letters are ordered by their code points.
pub open spec fn text_le(left: Seq<char>, right: Seq<char>) -> bool
    decreases left.len(),
{
    if left.len() == 0 {
        true
    } else if right.len() == 0 {
        false
    } else if left[0] != right[0] {
        (left[0] as u32) < (right[0] as u32)
    } else {
        text_le(left.drop_first(), right.drop_first())
    }
}

/// Whether no text of the sequence comes before one that stands earlier.
pub open spec fn ascending<'a>(texts: Seq<&'a str>) -> bool {
    forall|i: int, j: int| 0 <= i <= j < texts.len() ==> text_le(texts[i]@, texts[j]@)
}

/// Whether two texts are the same.
pub fn same_text(left: &str, right: &str) -> (same: bool)
    ensures
        same == (left@ == right@),
{
    left.to_owned() == right.to_owned()
}

/// Calls `str::contains` of the standard library with a text as the pattern.
/// Trusted: the answer is `true` exactly if the pattern occurs in the text as
/// a run of consecutive characters.
#[verifier::external_body]
pub(crate) fn contains(haystack: &str, needle: &str) -> (found: bool)
    ensures
        found == is_substring(needle@, haystack@),
{
    haystack.contains(needle)
}

/// Calls `sort` of the standard library on a vector of texts. Trusted: the
/// vector then holds the same texts as before, each as often as before, in
/// the ascending order of `str`, which compares texts character by character
/// by code point.
#[verifier::external_body]
pub(crate) fn sort_texts<'a>(texts: &mut Vec<&'a str>)
    ensures
        final(texts)@.to_multiset() == old(texts)@.to_multiset(),
        ascending(final(texts)@),
{
    texts.sort()
}

} // verus!
