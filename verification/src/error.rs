//! The error that the byte-stream surface reports.

use vstd::prelude::*;
use embedded_io_async::ErrorKind;

verus! {

/// `embedded_io::ErrorKind`, taken with the variants that the crate gives
/// it; of these the driver reports `Other` and `Unsupported`.
#[verifier::external_type_specification]
pub struct ExErrorKind(ErrorKind);

/// A failed operation: the line error that caused it, if one did, and its
/// coarse classification.
#[derive(Debug, PartialEq, Eq)]
pub struct LcdIOError<T>(pub Option<T>, pub ErrorKind);

impl<T> LcdIOError<T> {
    /// The coarse classification of this error.
    pub fn kind(&self) -> (r: ErrorKind)
        ensures
            r == self.1,
    {
        self.1
    }
}

/// What an operation reports once its steps have been played: `value` if
/// every line transition went through, else the line error, classified as
/// `Other`.
pub open spec fn concluded<R, T>(value: R, outcome: Result<(), T>) -> Result<R, LcdIOError<T>> {
    match outcome {
        Ok(_) => Ok(value),
        Err(e) => Err(LcdIOError(Some(e), ErrorKind::Other)),
    }
}

/// Turns the outcome of playing an operation's steps into the operation's
/// result.
pub fn conclude<R, T>(value: R, outcome: Result<(), T>) -> (r: Result<R, LcdIOError<T>>)
    ensures
        r == concluded(value, outcome),
{
    match outcome {
        Ok(_) => Ok(value),
        Err(e) => Err(LcdIOError(Some(e), ErrorKind::Other)),
    }
}

} // verus!
