//! The errors that the store reports.

use vstd::prelude::*;

verus! {

/// The kinds of failure of a store operation.
#[derive(Clone, Copy, Debug, PartialEq, Eq, Structural)]
pub enum ErrorKind {
    /// A list of that name is already there.
    AlreadyExists,
    /// No list of that name is there.
    NotFound,
    /// The list's file does not hold a sequence of tasks.
    InvalidData,
    /// The list's file could not be read.
    Io,
}

/// A failed operation: what went wrong, and the line to show for it.
#[derive(Debug, PartialEq, Eq)]
pub struct StoreError {
    pub kind: ErrorKind,
    pub message: String,
}

/// What an error is: its kind, and its message as a sequence of characters.
pub struct ErrorView {
    pub kind: ErrorKind,
    pub message: Seq<char>,
}

impl View for StoreError {
    type V = ErrorView;

    open spec fn view(&self) -> ErrorView {
        ErrorView { kind: self.kind, message: self.message@ }
    }
}

impl Clone for StoreError {
    fn clone(&self) -> (res: Self)
        ensures
            res == *self,
    {
        StoreError { kind: self.kind, message: self.message.clone() }
    }
}

} // verus!
