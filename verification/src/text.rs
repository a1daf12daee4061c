//! Texts as mathematical values.

use vstd::prelude::*;

verus! {

/// The characters of a text that may be missing.
pub open spec fn text_of(value: Option<String>) -> Option<Seq<char>> {
    match value {
        Some(text) => Some(text@),
        None => None,
    }
}

/// `text` with every line end written as carriage return and line feed: a
/// carriage return is put before each line feed that does not follow one.
/// This is how a mail carries text.
pub open spec fn crlf(text: Seq<char>) -> Seq<char>
    decreases text.len(),
{
    if text.len() == 0 {
        text
    } else if text.last() == '\n' && (text.len() == 1 || text[text.len() - 2] != '\r') {
        crlf(text.drop_last()) + seq!['\r', '\n']
    } else {
        crlf(text.drop_last()).push(text.last())
    }
}

} // verus!
