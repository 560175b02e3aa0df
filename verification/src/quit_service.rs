//! When the operator of a long-running program asks it to stop.

use crate::text::text_eq;
use vstd::prelude::*;

verus! {

/// The text without the white space at its start and at its end, as
/// `str::trim` gives it.
pub uninterp spec fn trimmed(line: Seq<char>) -> Seq<char>;

/// A line of input without the white space around it.
///
/// Calls `str::trim`. Trusted, not proved: the result is named, and nothing
/// more is said of it.
#[verifier::external_body]
fn trim(line: &str) -> (r: &str)
    ensures
        r@ == trimmed(line@),
{
    line.trim()
}

/// A word that asks the program to stop: `q`, `quit` or `exit`.
pub open spec fn quit_word(word: Seq<char>) -> bool {
    word == "q"@ || word == "quit"@ || word == "exit"@
}

/// Whether a word asks the program to stop.
pub fn is_quit_word(word: &str) -> (b: bool)
    ensures
        b == quit_word(word@),
{
    text_eq(word, "q") || text_eq(word, "quit") || text_eq(word, "exit")
}

/// Whether a line of input, the white space around it aside, asks the
/// program to stop.
pub fn is_quit_line(line: &str) -> (b: bool)
    ensures
        b == quit_word(trimmed(line@)),
{
    is_quit_word(trim(line))
}

} // verus!
