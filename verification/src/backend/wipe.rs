//! The answer to the question whether all tasks are to be wiped.

use crate::strings::{rank_strs, Rank};
use vstd::prelude::*;

verus! {

/// What a line of input answers to the question.
#[derive(Clone, Copy, Debug, PartialEq, Eq, Structural)]
pub enum Confirmation {
    /// Yes: go on with the wipe.
    Proceed,
    /// No: leave the tasks alone.
    Halt,
    /// Neither: the question is to be asked again.
    Unclear,
}

/// The text `text` in lower case, as `str::to_lowercase` of the standard
/// library gives it.
pub uninterp spec fn lowercased(text: Seq<char>) -> Seq<char>;

/// Whether `c` is white space, as the standard library counts it in
/// `str::trim_end` and in `char::is_whitespace`: whether Unicode gives the
/// character the property White_Space.
pub uninterp spec fn white_space(c: char) -> bool;

/// The text `text` without the white space at its end: the longest start of
/// the text that does not end in white space.
pub open spec fn end_trimmed(text: Seq<char>) -> Seq<char>
    decreases text.len(),
{
    if text.len() > 0 && white_space(text.last()) {
        end_trimmed(text.drop_last())
    } else {
        text
    }
}

/// The lower case of a text.
///
/// Calls `str::to_lowercase`, which returns the lower case equivalent of the
/// text as a new string. The result depends on the text alone; the contract
/// gives it a name and claims nothing else of it.
#[verifier::external_body]
fn to_lowercase(text: &str) -> (lower: String)
    ensures
        lower@ == lowercased(text@),
{
    text.to_lowercase()
}

/// A text without the white space at its end.
///
/// Calls `str::trim_end`, which returns the text with trailing white space
/// removed, white space being what Unicode gives the property White_Space.
/// The contract claims that the result is what is left of the text when
/// characters are taken off its end as long as the last one is white space,
/// so that the result does not end in white space. Which characters are
/// white space it leaves to the name `white_space`.
#[verifier::external_body]
fn trim_end(text: &str) -> (trimmed: &str)
    ensures
        trimmed@ == end_trimmed(text@),
        trimmed@.len() > 0 ==> !white_space(trimmed@.last()),
{
    text.trim_end()
}

/// What an answer says once it is in lower case and trimmed: `y` is a yes,
/// `n` is a no, and anything else is neither.
pub open spec fn answer(text: Seq<char>) -> Confirmation {
    if text == "y"@ {
        Confirmation::Proceed
    } else if text == "n"@ {
        Confirmation::Halt
    } else {
        Confirmation::Unclear
    }
}

/// What an answer says once it is in lower case and trimmed.
pub fn answer_of(text: &str) -> (confirmation: Confirmation)
    ensures
        confirmation == answer(text@),
{
    if rank_strs(text, "y") == Rank::Same {
        Confirmation::Proceed
    } else if rank_strs(text, "n") == Rank::Same {
        Confirmation::Halt
    } else {
        Confirmation::Unclear
    }
}

/// What a line of input answers to the question: the line is put into lower
/// case, the white space at its end is taken off, and what is left is read
/// as `answer_of` reads it.
pub fn confirmation(line: &str) -> (confirmation: Confirmation)
    ensures
        confirmation == answer(end_trimmed(lowercased(line@))),
{
    let lower = to_lowercase(line);
    let trimmed = trim_end(lower.as_str());
    answer_of(trimmed)
}

} // verus!
