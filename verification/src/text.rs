//! Trimming of texts read from files.

use vstd::prelude::*;

verus! {

/// Whether `c` is white space in the sense of Unicode's `White_Space`
/// property, which is what `char::is_whitespace` and `str::trim` go by.
pub uninterp spec fn is_white_space(c: char) -> bool;

/// The text without the white space at its start.
pub open spec fn trim_start(text: Seq<char>) -> Seq<char>
    decreases text.len(),
{
    if text.len() > 0 && is_white_space(text.first()) {
        trim_start(text.drop_first())
    } else {
        text
    }
}

/// The text without the white space at its end.
pub open spec fn trim_end(text: Seq<char>) -> Seq<char>
    decreases text.len(),
{
    if text.len() > 0 && is_white_space(text.last()) {
        trim_end(text.drop_last())
    } else {
        text
    }
}

/// The text without the white space at its two ends.
pub open spec fn trimmed(text: Seq<char>) -> Seq<char> {
    trim_end(trim_start(text))
}

/// `str::trim`: the slice that is left when the white space at the start and
/// at the end of the text is taken away. White space inside stays, so what is
/// left, unless it is empty, begins and ends with a character that is no white
/// space.
#[verifier::external_body]
pub(crate) fn trim(text: &str) -> (rest: &str)
    ensures
        rest@ == trimmed(text@),
        rest@.len() > 0 ==> !is_white_space(rest@.first()) && !is_white_space(rest@.last()),
{
    text.trim()
}

} // verus!
