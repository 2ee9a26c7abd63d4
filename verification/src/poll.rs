//! The answer of an operation that may have to wait.

use vstd::prelude::*;

verus! {

/// Either the value of an operation that is complete, or the word that it has to wait.
///
/// An operation that answers `Pending` has arranged for the task of its context to be woken.
#[derive(Debug)]
pub enum Poll<T> {
    Ready(T),
    Pending,
}

} // verus!
