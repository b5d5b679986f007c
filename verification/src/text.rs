//! Text as sequences of characters: what it means for one text to occur in
//! another.

use vstd::prelude::*;

verus! {

/// `needle` occurs in `text`: some stretch of `text` is `needle`, character
/// for character. The empty text occurs in every text.
pub open spec fn occurs_in(needle: Seq<char>, text: Seq<char>) -> bool {
    exists|from: int, to: int|
        0 <= from <= to <= text.len() && #[trigger] text.subrange(from, to) == needle
}

/// To occur in a text is to stand between a beginning and an end of it:
/// at the start, in the middle or at the end, whole and unchanged. What
/// occurs in a text is no longer than the text, the empty text occurs in
/// every text, and every text occurs in itself.
pub proof fn occurrence_is_a_stretch(needle: Seq<char>, text: Seq<char>)
    ensures
        occurs_in(needle, text) <==> exists|before: Seq<char>, after: Seq<char>|
            text == #[trigger] (before + needle + after),
        occurs_in(needle, text) ==> needle.len() <= text.len(),
        occurs_in(Seq::empty(), text),
        occurs_in(text, text),
{
    if occurs_in(needle, text) {
        let (from, to) = choose|from: int, to: int|
            0 <= from <= to <= text.len() && #[trigger] text.subrange(from, to) == needle;
        let before = text.subrange(0, from);
        let after = text.subrange(to, text.len() as int);
        assert(text =~= before + needle + after);
    }
    if exists|before: Seq<char>, after: Seq<char>| text == #[trigger] (before + needle + after) {
        let (before, after) = choose|before: Seq<char>, after: Seq<char>|
            text == #[trigger] (before + needle + after);
        let from = before.len() as int;
        let to = from + needle.len();
        assert(text.subrange(from, to) =~= needle);
    }
    assert(text.subrange(0, 0) =~= Seq::<char>::empty());
    assert(text.subrange(0, text.len() as int) =~= text);
}

/// Searches `text` for `needle` with std's `str::contains`.
///
/// std documents that `contains` with a string as its pattern returns true
/// exactly when the pattern matches a sub-slice of the text. Both are valid
/// UTF-8, where a match of the bytes is a match of the characters, so the
/// contract states it over the characters.
#[verifier::external_body]
pub(crate) fn str_contains(text: &str, needle: &str) -> (found: bool)
    ensures
        found == occurs_in(needle@, text@),
{
    text.contains(needle)
}

} // verus!
