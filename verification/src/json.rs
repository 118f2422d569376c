//! What the store needs to know of a failed JSON read.

use serde_json::error::Category;
use vstd::prelude::*;

verus! {

#[verifier::external_type_specification]
#[verifier::external_body]
pub struct ExJsonError(serde_json::Error);

/// Why a JSON document could not be turned into a value.
#[derive(Clone, Copy, Debug, PartialEq, Eq, Structural)]
pub enum ParseFault {
    /// The bytes could not be fetched.
    Io,
    /// The text is not JSON.
    Syntax,
    /// The text is JSON of another shape than the one asked for.
    Data,
    /// The text ended before a value was complete.
    Eof,
}

/// The fault that a JSON error stands for.
pub uninterp spec fn fault_of(e: serde_json::Error) -> ParseFault;

/// Calls `serde_json::Error::classify` and renames the category it returns, one
/// variant for one. The category is read off the error's code alone, so it is the
/// same for the same error every time: `fault_of` names it.
#[verifier::external_body]
pub(crate) fn classify(e: &serde_json::Error) -> (fault: ParseFault)
    ensures
        fault == fault_of(*e),
{
    match e.classify() {
        Category::Io => ParseFault::Io,
        Category::Syntax => ParseFault::Syntax,
        Category::Data => ParseFault::Data,
        Category::Eof => ParseFault::Eof,
    }
}

/// Calls `to_string` on a `serde_json::Error`: the line that its `Display` writes.
/// For a failed read that line comes from the operating system, so nothing is
/// claimed of it.
#[verifier::external_body]
pub(crate) fn describe(e: &serde_json::Error) -> (text: String)
{
    e.to_string()
}

} // verus!
