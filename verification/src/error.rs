//! The errors that the stack reports.

use vstd::prelude::*;

verus! {

/// What went wrong, in the terms of the I/O error kinds of the same names.
#[derive(Clone, Copy, Debug, PartialEq, Eq)]
pub enum ErrorKind {
    /// A packet or a configuration that the stack cannot work with.
    InvalidInput,
    /// A packet for a channel whose receiver is gone.
    BrokenPipe,
}

/// A kind of error and the text that describes it.
#[derive(Debug)]
pub struct StackError {
    pub kind: ErrorKind,
    pub message: String,
}

impl StackError {
    /// Whether the error is of the given kind and has the given text.
    pub open spec fn is(self, kind: ErrorKind, message: Seq<char>) -> bool {
        self.kind == kind && self.message@ == message
    }
}

/// An error has one kind and one text, and they are the ones that it holds.
pub proof fn law_error_is_one(error: StackError, kind: ErrorKind, message: Seq<char>)
    requires
        error.is(kind, message),
    ensures
        error.kind == kind,
        error.message@ == message,
{
}

} // verus!
