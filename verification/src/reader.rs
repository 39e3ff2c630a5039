//! The filesystem reader's side of the library: what a read of one file
//! hands to the decoders.
//!
//! Listing directories and opening files is the caller's work. The caller
//! reports each read as a `Result`: the file's content as text, or the
//! reason why there is none.

use vstd::prelude::*;
use crate::error::ReadError;
use crate::text::{strip_line_terminator, without_line_terminator};

verus! {

/// The text that a read produced, if it produced one.
pub open spec fn text_of(outcome: Result<String, ReadError>) -> Option<Seq<char>> {
    match outcome {
        Ok(text) => Some(text@),
        Err(_) => None,
    }
}

/// The outcome of a read with its text taken as a sequence of characters.
pub open spec fn outcome_view(outcome: Result<String, ReadError>) -> Result<
    Seq<char>,
    ReadError,
> {
    match outcome {
        Ok(text) => Ok(text@),
        Err(e) => Err(e),
    }
}

/// What the reader returns for a file whose raw read ended in `raw`: the
/// content without its trailing line terminator, or the same error.
pub open spec fn read_result(raw: Result<Seq<char>, ReadError>) -> Result<Seq<char>, ReadError> {
    match raw {
        Ok(content) => Ok(without_line_terminator(content)),
        Err(e) => Err(e),
    }
}

/// Turns the raw outcome of reading a file into the reader's result.
pub fn file_text(raw: Result<String, ReadError>) -> (r: Result<String, ReadError>)
    ensures
        outcome_view(r) == read_result(outcome_view(raw)),
{
    match raw {
        Ok(content) => Ok(strip_line_terminator(content.as_str())),
        Err(e) => Err(e),
    }
}

} // verus!
